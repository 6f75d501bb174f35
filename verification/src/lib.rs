//! Control logic for the Little Devil (LD-1) Bluetooth device: the command
//! tables of its protocol, the checks and replies of its HTTP interface, and
//! the decisions taken while writing a command to the device.

pub mod api;
pub mod commands;
pub mod scan;
pub mod send;
pub mod text;
