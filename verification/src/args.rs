//! The run's configuration: the path list and the link policy, parsed once
//! from the command line by the surrounding program and shared read-only by
//! every link request.
use vstd::prelude::*;

verus! {

/// Which kind of link a run creates.
pub enum LinkKind {
    Symbolic,
    Hard,
}

/// The parsed command line: the positional paths (all but the last are
/// sources, the last is the destination) and the conflict policy flags.
pub struct Args {
    /// The positional paths; a valid run has at least two.
    pub file: Vec<String>,
    /// Move an existing destination aside instead of removing it.
    pub backup: bool,
    /// The suffix appended to a file's name when it is backed up.
    pub suffix: String,
    /// Remove an existing destination without prompting.
    pub noninteractive: bool,
    /// Create hard links instead of symbolic links.
    pub hardlink: bool,
    /// Suppress informational notices.
    pub quiet: bool,
}

impl Args {
    pub fn new(
        file: Vec<String>,
        backup: bool,
        suffix: String,
        noninteractive: bool,
        hardlink: bool,
        quiet: bool,
    ) -> (a: Args)
        ensures
            a.file == file,
            a.backup == backup,
            a.suffix == suffix,
            a.noninteractive == noninteractive,
            a.hardlink == hardlink,
            a.quiet == quiet,
    {
        Args { file, backup, suffix, noninteractive, hardlink, quiet }
    }

    pub fn file(&self) -> (r: &Vec<String>)
        ensures
            r == self.file,
    {
        &self.file
    }

    pub fn backup(&self) -> (r: bool)
        ensures
            r == self.backup,
    {
        self.backup
    }

    pub fn suffix(&self) -> (r: &String)
        ensures
            r == self.suffix,
    {
        &self.suffix
    }

    pub fn noninteractive(&self) -> (r: bool)
        ensures
            r == self.noninteractive,
    {
        self.noninteractive
    }

    pub fn quiet(&self) -> (r: bool)
        ensures
            r == self.quiet,
    {
        self.quiet
    }

    /// The kind of link this run creates: hard exactly when `--hardlink`
    /// was given, in the single-pair form and in the batch form alike.
    pub fn link_kind(&self) -> (k: LinkKind)
        ensures
            k is Hard <==> self.hardlink,
    {
        if self.hardlink {
            LinkKind::Hard
        } else {
            LinkKind::Symbolic
        }
    }
}

} // verus!
