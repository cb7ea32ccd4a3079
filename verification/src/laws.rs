//! Facts that are proved of every scan, every parse and every run.

pub mod parsing;
pub mod running;
pub mod scanning;
