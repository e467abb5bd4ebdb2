//! Windows security identifiers (SIDs) as plain values.
//!
//! A SID identifies a user, group, logon session, or other security principal.
//! [`Sid`] holds the fields of the Windows `SID` structure and [`SidBuf`] owns
//! one; `SidBuf` dereferences to `Sid`. Both compare, order and hash by value.
//!
//! The library builds SIDs from an identifier authority and sub-authorities
//! ([`SidBuf::new`]), reads and writes their binary layout
//! ([`SidBuf::from_bytes`], [`Sid::as_bytes`], [`SidBuf::from_words`],
//! [`Sid::words`]), and formats and parses their string form
//! ([`Sid::to_string`], [`SidBuf::parse`]). Each of these is verified against
//! the model in [`SidValue`].

pub mod bytes;
mod error;
pub mod order;
mod sealed;
pub mod sid;
pub mod text;

pub mod authority;

pub mod well_known;

pub use authority::IntoAuthority;
pub use error::{Error, Result, SidParseError, SidParseErrorKind, ERROR_INSUFFICIENT_BUFFER, ERROR_INVALID_SID};
pub use sid::{sid_word_len, Sid, SidBuf, SidValue, SID_MAX_SUB_AUTHORITIES, SID_REVISION};
pub use text::check_string_sid;
pub use well_known::{AsWellKnownSidType, WellKnownSidType};
