//! Backend commands of a small desktop front end: a batch check of which paths
//! exist, a greeting, and the line that the diagnostic log prints.

pub mod diagnostics;
pub mod existence;
pub mod greeting;

pub use diagnostics::{log_line, log_path_line};
pub use existence::{check_file_existence, existence_report, faithful_to, probe_reports};
pub use greeting::{greet, greeting};
