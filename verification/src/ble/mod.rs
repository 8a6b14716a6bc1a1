//! Bluetooth Low Energy: the device registry and its rules.
pub mod manager;
