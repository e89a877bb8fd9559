//! Heat-balance model of a pressurized-water nuclear plant's secondary cycle:
//! the parameter input form, the application settings, input validation and
//! the bounded control of the solver's fixed-point iteration.

pub mod errors;
pub mod input_type;
pub mod input_tab;
pub mod solve;
pub mod config;
pub mod session;
