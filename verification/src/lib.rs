//! Bluetooth Low Energy adapter control over the BlueZ object protocol, and
//! the expansion of short-form service codes into full identifiers.

pub mod peripheral;
pub mod uuid;
