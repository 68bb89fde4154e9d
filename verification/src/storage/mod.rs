//! Configuration stores that need no hardware.
pub mod ram;
