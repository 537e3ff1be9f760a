//! Self-diagnosis for a runtime version manager: gathers what is known of the
//! installation into one report, runs a fixed list of health checks over it and
//! derives the exit status.
pub mod checks;
pub mod doctor;
pub mod indent;
pub mod paint;
pub mod sections;
pub mod text;
