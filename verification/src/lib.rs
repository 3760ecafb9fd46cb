//! Rules of the military-records folder manager: registration numbers,
//! folder names and lookup, copy policies, configuration and the send report.
pub mod commands;
pub mod config;
pub mod errors;
pub mod filesystem;
pub mod matricula;
pub mod texto;
