//! Satellite tracking: two-line element handling and observer location fields.

pub mod location;
pub mod text;
pub mod tle;
pub mod satellite;

pub use satellite::{Satellite, SatelliteError};
pub use tle::Tle;
