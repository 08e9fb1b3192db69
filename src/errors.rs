//! The errors the sensor and configuration operations report to their caller.
use vstd::prelude::*;

verus! {

/// Why an operation on a sensor or its configuration was refused. None of them
/// leaves a change behind.
#[derive(Clone, Copy, Debug, PartialEq, Eq, Structural)]
pub enum ApiError {
    /// Host, port or interval is not configured (a conflict).
    ConfigIncomplete,
    /// The sensor already exists (a conflict).
    AlreadyExists,
    /// The sensor does not exist.
    NotFound,
    /// Latitude outside `[-90, 90]`.
    InvalidLatitude,
    /// Longitude outside `[-180, 180]`.
    InvalidLongitude,
    /// Negative speed over ground.
    InvalidSpeed,
    /// Course outside `[0, 360)`.
    InvalidCourse,
    /// Pitch outside `[-90, 90]`.
    InvalidPitch,
    /// Roll outside `[-90, 90]`.
    InvalidRoll,
    /// Yaw outside `[0, 360)`.
    InvalidYaw,
    /// The proposed broker could not be reached; the configuration is kept.
    BrokerUnreachable,
}

} // verus!
