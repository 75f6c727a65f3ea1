//! The languages that the compiler knows without being told.
pub mod php;
