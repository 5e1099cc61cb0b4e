//! Token-efficient file reading: outlines, public interfaces, line windows
//! and diff colouring.

pub mod around;
pub mod args;
pub mod display;
pub mod diff;
pub mod interface;
pub mod outline;
pub mod rules;






pub mod types;
