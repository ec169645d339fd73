//! Control of a BlueZ adapter through the system's object broker.

pub mod adapter;
pub mod call;
pub mod constants;
pub mod error;
pub mod object;
pub mod value;
