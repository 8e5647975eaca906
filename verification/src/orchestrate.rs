//! The run's shape: of the positional paths, all but the last are sources
//! and the last is the destination. Each source is processed exactly once,
//! in argument order; a failure stops the remaining sources, a declined
//! prompt only does so in the single-pair form (`cancel_stops_run`).
use vstd::prelude::*;

verus! {

/// The destination argument: the final positional path.
pub fn destination(file: &Vec<String>) -> (d: &String)
    requires
        file@.len() >= 2,
    ensures
        d == file@.last(),
{
    &file[file.len() - 1]
}

/// The source paths: every positional path but the final one, in order.
pub fn sources(file: &Vec<String>) -> (r: Vec<String>)
    requires
        file@.len() >= 2,
    ensures
        r@.len() == file@.len() - 1,
        forall|i: int| 0 <= i < r@.len() ==> r@[i] == file@[i],
{
    let len: usize = file.len();
    let mut r: Vec<String> = Vec::new();
    let mut i: usize = 0;
    while i < len - 1
        invariant
            i <= len - 1,
            len == file@.len(),
            len >= 2,
            r@.len() == i,
            forall|j: int| 0 <= j < i ==> r@[j] == file@[j],
        decreases len - 1 - i,
    {
        r.push(file[i].clone());
        i = i + 1;
    }
    r
}

} // verus!
