//! A course of small chapters on ownership, borrowing, lifetimes and pattern
//! matching, with the runner that picks a chapter from the command line.
//!
//! `runner` decides what a run prints before a chapter starts; the chapter
//! modules hold the functions that the chapters call.

pub mod ch01_ownership;
pub mod ch02_borrowing;
pub mod ch03_lifetime;
pub mod ch04_pattern_matching;
pub mod runner;
