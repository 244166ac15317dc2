//! Reconstructs work intervals from a day's clock-in/clock-out punches and
//! renders the simple and fancy timesheet reports.

pub mod text;
pub mod time;
pub mod punch;
pub mod interval;
pub mod report;
pub mod fancy_report;
pub mod bar;
pub mod config;
pub mod check_time;
