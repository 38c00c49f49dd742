//! A robot on a fixed ten-by-ten grid, driven by one line of text at a time.

pub mod command;
pub mod decimal;
pub mod direction;
pub mod grid;
pub mod laws;
pub mod mission;
pub mod report;
pub mod robot;
pub mod session;
pub mod words;
