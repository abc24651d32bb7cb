//! Verified core of a command-line tool for Apple Calendar and Reminders:
//! calendar selection, recurrence normalization, batch planning, configuration
//! validation, cached row references and flight-status matching.

pub mod text;
pub mod eventkit;
pub mod calendar_selector;
pub mod dates;
pub mod cli;
pub mod models;
pub mod ordered;
pub mod recurrence;
pub mod calendar;
pub mod batch;
pub mod config;
pub mod doctor;
pub mod cache;
pub mod flightaware;
pub mod enrichment;
pub mod add_command;
pub mod event_writes;
pub mod reports;
pub mod add_plan;
pub mod update_plan;
pub mod laws;
