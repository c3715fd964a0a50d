//! Decision logic for an interactive simulator-device cleaner: turning the
//! device manager's listing into device records, rendering table rows,
//! building the delete and create invocations, and sequencing one run.

pub mod commands;
pub mod device;
pub mod json;
pub mod listing;
pub mod paths;
pub mod prompt;
pub mod session;
pub mod sizes;
pub mod table;
pub mod text;
