//! PHP versions on the Languages page: which major the catch-all serves and
//! why, and an install's live output.
use vstd::prelude::*;

verus! {

/// Which PHP major the catch-all serves, and why: four outcomes that stay
/// distinct, because "nobody chose" and "your choice is gone" serve the same
/// major and must never be rendered the same way.
#[derive(Debug, Clone, PartialEq, Eq)]
pub enum DefaultPhpDto {
    /// No preference, and no PHP installed.
    NothingInstalled,
    /// No preference stored: the first discovered major is served.
    Unset { serving: String },
    /// A preference is stored and that major is installed.
    Preferred { major: String },
    /// A preference is stored and that major is not installed: what was asked
    /// for, and what is served instead (if anything).
    PreferredMissing { requested: String, serving: Option<String> },
}

/// One line of an install's output, forwarded live while it runs.
#[derive(Debug, Clone)]
pub struct PhpInstallLogEvent {
    pub major: String,
    pub ts_ms: u64,
    pub stream: String,
    pub line: String,
}

} // verus!
