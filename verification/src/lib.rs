//! Creation of symbolic and hard links with interactive-safety behavior:
//! confirmation prompts before a destination is replaced, and optional
//! backups of pre-existing destination files.
//!
//! The library holds the decision logic: resolving the link target for each
//! source, and choosing how a pre-existing file at that target is handled
//! (backup, forced removal, or a user prompt). The filesystem calls and the
//! terminal belong to the surrounding program, which feeds their results back
//! in as plain values.
use vstd::prelude::*;

pub mod args;
pub mod confirm;
pub mod conflict;
pub mod orchestrate;
pub mod resolve;

verus! {

/// The errors a run can end with.
#[derive(Debug)]
pub enum Error {
    /// An underlying operation failed; the payload is its message.
    LambError(String),
    /// A run with three or more paths needs an existing directory as its
    /// final argument, and `path` is not one.
    NotADirectory { path: String },
    /// A source path has no usable base name to link under inside a
    /// directory destination.
    MissingFileName,
    /// The user declined to replace an existing destination.
    Canceled,
}

impl Error {
    /// The human-readable message for this error, as the program prints it.
    pub fn message(&self) -> (m: String)
        ensures
            self matches Error::LambError(s) ==> m@ == s@,
            self matches Error::NotADirectory { path } ==> m@ == "'"@ + path@
                + "' is not a directory"@,
            self is MissingFileName ==> m@ == "Failed to get file name"@,
            self is Canceled ==> m@ == "Canceled"@,
    {
        match self {
            Error::LambError(s) => s.clone(),
            Error::NotADirectory { path } => {
                let m = String::from_str("'");
                let m = m.concat(path.as_str());
                let m = m.concat("' is not a directory");
                m
            },
            Error::MissingFileName => String::from_str("Failed to get file name"),
            Error::Canceled => String::from_str("Canceled"),
        }
    }
}

} // verus!
