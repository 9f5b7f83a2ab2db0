use vstd::prelude::*;

verus! {

/// Where the repository lives; `None` means the current directory.
pub struct Env {
    pub dir: Option<String>,
}

impl Env {
    pub fn new(dir: Option<String>) -> (r: Env)
        ensures
            r.dir == dir,
    {
        Env { dir }
    }
}

/// A short summary of a failure together with a longer explanation.
#[derive(Debug)]
pub struct ErrorDetail {
    pub summary: String,
    pub detail: String,
}

impl ErrorDetail {
    pub fn new(summary: &str, detail: &str) -> (r: ErrorDetail)
        ensures
            r.summary@ == summary@,
            r.detail@ == detail@,
    {
        ErrorDetail { summary: summary.to_owned(), detail: detail.to_owned() }
    }
}

/// The two ways an operation of this library can fail.
#[derive(Debug)]
pub enum Error {
    /// A value was refused by a validating constructor.
    InvalidValueError(ErrorDetail),
    /// A failure of the platform (a process, a decoding, a pattern), as its message.
    Wrapped(String),
}

} // verus!
