//! Conflict handling: when the computed link path is already occupied,
//! decide — under the run's policy — whether the occupant is moved aside,
//! removed outright, or the user is asked.
//!
//! The decision is pure; the surrounding program performs the chosen move or
//! removal and, for `Ask`, reads the answer and feeds it back through
//! `crate::confirm::is_affirmative` and `outcome_of`.
use vstd::prelude::*;
use vstd::string::StringExecFns;
use crate::args::Args;

verus! {

/// The name an occupant is backed up under: the occupied path with the
/// backup suffix appended.
pub open spec fn spec_backup_name(target: Seq<char>, suffix: Seq<char>) -> Seq<char> {
    target + suffix
}

/// What to do about the file currently at the link path, in strict policy
/// priority order: backup first, then unconditional removal, then a prompt.
pub enum ConflictPlan {
    /// Nothing occupies the path; create the link directly.
    Proceed,
    /// Move the occupant to `to` before creating the link.
    Backup { to: String },
    /// Remove the occupant without asking before creating the link.
    Remove,
    /// Ask the user whether the occupant may be replaced.
    Ask,
}

/// How conflict handling for one source ended.
pub enum ConflictOutcome {
    /// The path is free (was free, or its occupant was removed).
    Cleared,
    /// The occupant was moved aside to the carried path.
    BackedUp(String),
    /// The user declined; no link is created for this source.
    Canceled,
}

/// The path a backup of `target` is moved to.
pub fn backup_destination(target: &String, suffix: &String) -> (r: String)
    ensures
        r@ == spec_backup_name(target@, suffix@),
{
    let r = target.clone();
    let r = r.concat(suffix.as_str());
    r
}

/// Backup naming is deterministic and composes: backing up a file that is
/// itself a backup appends the suffix once more, so a second identical run
/// moves the first backup to a distinct, predictable name instead of
/// silently overwriting it in place.
pub proof fn lemma_backup_of_backup(target: Seq<char>, suffix: Seq<char>)
    ensures
        spec_backup_name(spec_backup_name(target, suffix), suffix) == target + suffix + suffix,
        suffix.len() > 0 ==> spec_backup_name(spec_backup_name(target, suffix), suffix)
            != spec_backup_name(target, suffix),
{
    if suffix.len() > 0 {
        let once = spec_backup_name(target, suffix);
        let twice = spec_backup_name(once, suffix);
        assert(twice.len() == once.len() + suffix.len());
    }
}

/// Choose how the file at `target` (occupied exactly when `exists`) is
/// handled under `policy`: backup mode wins over noninteractive mode, and
/// only with neither flag set is the user asked.
pub fn plan_conflict(target: &String, exists: bool, policy: &Args) -> (p: ConflictPlan)
    ensures
        !exists ==> p is Proceed,
        exists && policy.backup ==> (p matches ConflictPlan::Backup { to } && to@
            == spec_backup_name(target@, policy.suffix@)),
        exists && !policy.backup && policy.noninteractive ==> p is Remove,
        exists && !policy.backup && !policy.noninteractive ==> p is Ask,
{
    if !exists {
        ConflictPlan::Proceed
    } else if policy.backup {
        ConflictPlan::Backup { to: backup_destination(target, &policy.suffix) }
    } else if policy.noninteractive {
        ConflictPlan::Remove
    } else {
        ConflictPlan::Ask
    }
}

/// The outcome conflict handling ends with, once the plan's filesystem step
/// has been carried out and — for `Ask` — the answer is in: a declined
/// prompt is the only way a source is canceled.
pub fn outcome_of(plan: &ConflictPlan, affirmative: bool) -> (o: ConflictOutcome)
    ensures
        plan is Proceed ==> o is Cleared,
        plan matches ConflictPlan::Backup { to } ==> (o matches ConflictOutcome::BackedUp(p) && p@
            == to@),
        plan is Remove ==> o is Cleared,
        plan is Ask && affirmative ==> o is Cleared,
        plan is Ask && !affirmative ==> o is Canceled,
{
    match plan {
        ConflictPlan::Proceed => ConflictOutcome::Cleared,
        ConflictPlan::Backup { to } => ConflictOutcome::BackedUp(to.clone()),
        ConflictPlan::Remove => ConflictOutcome::Cleared,
        ConflictPlan::Ask => {
            if affirmative {
                ConflictOutcome::Cleared
            } else {
                ConflictOutcome::Canceled
            }
        },
    }
}

/// A declined prompt ends the whole run only in the single-pair form (two
/// positional arguments); in the batch form it skips that one source and
/// the remaining sources are still processed.
pub fn cancel_stops_run(total_args: usize) -> (stop: bool)
    ensures
        stop <==> total_args == 2,
{
    total_args == 2
}

} // verus!
