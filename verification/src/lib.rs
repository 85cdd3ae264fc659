//! Free-fall detection for a small board with an accelerometer, a
//! five-by-five LED matrix and a speaker.
//!
//! The crate holds the decisions of the firmware and touches no hardware: how
//! a reading of the accelerometer becomes a magnitude (`sample`), how a
//! magnitude moves the fall classification (`detector`), what the display
//! (`frame`, `display`) and the speaker (`alarm`) are told when the
//! classification changes (`main_loop`), how a poll of the sensor goes
//! (`sensor`), which failures stop the firmware (`fault`), and how the
//! foreground and the interrupts share a peripheral (`lock`, `schedule`).
//! The program that owns the peripherals feeds events in and carries the
//! returned orders out.

pub mod alarm;
pub mod detector;
pub mod display;
pub mod fault;
pub mod frame;
pub mod lock;
pub mod main_loop;
pub mod sample;
pub mod schedule;
pub mod sensor;
