//! The peripheral side of a Bluetooth Low Energy link.

pub mod bluez;
