//! Verified core of a safe API over the Swiss Ephemeris: the request
//! checks, code tables and result decoding that surround each call into the
//! C library, together with the integer calendar arithmetic of Julian day
//! numbers.

pub mod body;
pub mod calendar;
pub mod codes;
pub mod eclipse;
pub mod error;
pub mod flags;
pub mod houses;
pub mod position;
pub mod sidereal;

pub use body::{Body, Ephemeris, Sign};
pub use eclipse::EclipseKind;
pub use error::Error;
pub use flags::Flags;
pub use houses::HouseSystem;
pub use sidereal::Ayanamsha;
