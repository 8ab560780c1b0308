//! The diagnostic log command: the line it writes for a path received from
//! the front end. Writing the line out is the host program's part.
use vstd::prelude::*;

verus! {

/// Text that opens every log line, before the path.
pub open spec fn log_head() -> Seq<char> {
    "Received path from frontend: "@
}

/// The log line for `path`.
pub open spec fn log_line(path: Seq<char>) -> Seq<char> {
    log_head() + path
}

/// Builds the line that the diagnostic log writes for `path`.
pub fn log_path_line(path: &str) -> (r: String)
    ensures
        r@ == log_line(path@),
{
    let mut r = String::from_str("Received path from frontend: ");
    r.append(path);
    r
}

} // verus!
