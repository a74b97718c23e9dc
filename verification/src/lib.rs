//! Reading Rho's usage ledger into report entries.

pub mod text;
pub mod calendar;
pub mod clock;
pub mod event;
pub mod loader;
pub mod paths;
pub mod laws;
