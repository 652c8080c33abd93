//! Unsigned integers that count from one.
//!
//! People number lines, pages and positions from one; programs index from
//! zero. Each `OneBased*` type holds a position as its 1-based value, which is
//! never zero, and hands it out in either convention: `as_one_based` and
//! `as_zero_based`. An index is made from a 1-based value, from a 0-based
//! value, or from text, and every constructor says when it fails.
//!
//! There is one type for each unsigned integer type. An index converts to a
//! wider one with `From` and to any other with `TryFrom`, which fails exactly
//! when the value does not fit.
//!
//! - `error`: the errors of the constructors and of parsing.
//! - `nonzero`: integers that are never zero, the raw value of an index.
//! - `decimal`: the text of an index, unsigned decimal digits.
//! - `index_u8` to `index_usize`: the index types.
//! - `widen`, `narrow`: the conversions between them.

pub mod decimal;
pub mod error;
pub mod index_u128;
pub mod index_u16;
pub mod index_u32;
pub mod index_u64;
pub mod index_u8;
pub mod index_usize;
pub mod narrow;
pub mod nonzero;
pub mod widen;

pub use error::IntErrorKind;
pub use error::OneBasedError;
pub use error::ParseOneBasedError;
pub use index_u128::OneBasedU128;
pub use index_u16::OneBasedU16;
pub use index_u32::OneBasedU32;
pub use index_u64::OneBasedU64;
pub use index_u8::OneBasedU8;
pub use index_usize::OneBasedUsize;
pub use nonzero::NonZeroU128;
pub use nonzero::NonZeroU16;
pub use nonzero::NonZeroU32;
pub use nonzero::NonZeroU64;
pub use nonzero::NonZeroU8;
pub use nonzero::NonZeroUsize;
