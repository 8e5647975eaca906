//! Target resolution: given one source path and the destination argument,
//! compute the path at which the link will be created.
//!
//! The destination's filesystem type is an input (`FileKind`), looked up once
//! by the surrounding program; resolution itself is a pure function of that
//! lookup and the request values.
use vstd::prelude::*;
use vstd::string::StrSliceExecFns;
use vstd::string::StringExecFns;
use crate::Error;

verus! {

/// What a filesystem lookup of the destination argument found.
#[derive(Clone, Copy, Debug, PartialEq, Eq)]
pub enum FileKind {
    /// The path exists and is a directory.
    Directory,
    /// The path exists and is anything else (regular file, symlink, ...).
    Other,
    /// The path does not exist.
    Missing,
}

/// The path with its trailing `/` separators and trailing `.` components
/// removed: a final `/` is dropped, and so is a final `.` that stands alone
/// as a component (at the start of the path or just after a `/`), until
/// neither ends the path.
pub open spec fn prune_trailing(s: Seq<char>) -> Seq<char>
    decreases s.len(),
{
    if s.len() > 0 && s.last() == '/' {
        prune_trailing(s.drop_last())
    } else if s.len() > 0 && s.last() == '.' && (s.len() == 1 || s[s.len() - 2] == '/') {
        prune_trailing(s.drop_last())
    } else {
        s
    }
}

/// The suffix of the path after its last `/` separator (the whole path when
/// it has none).
pub open spec fn after_last_separator(s: Seq<char>) -> Seq<char>
    decreases s.len(),
{
    if s.len() == 0 {
        s
    } else if s.last() == '/' {
        Seq::<char>::empty()
    } else {
        after_last_separator(s.drop_last()).push(s.last())
    }
}

/// The base name of a path: its last real component, with trailing
/// separators and trailing `.` components ignored. A path with no real
/// component left, or one that ends in a `..` component, has no base name
/// to create a link under.
pub open spec fn spec_basename(s: Seq<char>) -> Option<Seq<char>> {
    let name = after_last_separator(prune_trailing(s));
    if name.len() == 0 || (name.len() == 2 && name[0] == '.' && name[1] == '.') {
        None
    } else {
        Some(name)
    }
}

/// When every character from `b` on is free of separators and `b` sits just
/// past a separator (or at the start), the suffix from `b` is exactly what
/// follows the last separator.
proof fn lemma_after_last_separator_suffix(t: Seq<char>, b: int)
    requires
        0 <= b <= t.len(),
        b == 0 || t[b - 1] == '/',
        forall|i: int| b <= i < t.len() ==> t[i] != '/',
    ensures
        after_last_separator(t) == t.subrange(b, t.len() as int),
    decreases t.len(),
{
    if t.len() == b {
        if b == 0 {
            assert(t.subrange(0, 0) =~= t);
        } else {
            assert(t.last() == '/');
            assert(t.subrange(b, t.len() as int) =~= Seq::<char>::empty());
        }
    } else {
        assert(t[t.len() - 1] != '/');
        lemma_after_last_separator_suffix(t.drop_last(), b);
        assert(t.drop_last().subrange(b, t.len() - 1).push(t.last()) =~= t.subrange(
            b,
            t.len() as int,
        ));
    }
}

/// The base name of `path`, or `None` when it has none.
pub fn basename(path: &str) -> (r: Option<String>)
    ensures
        match r {
            Some(name) => spec_basename(path@) == Some(name@),
            None => spec_basename(path@) is None,
        },
{
    let n: usize = path.unicode_len();
    proof {
        assert(path@.subrange(0, n as int) =~= path@);
    }
    let mut e: usize = n;
    while e > 0 && (path.get_char(e - 1) == '/' || (path.get_char(e - 1) == '.' && (e == 1
        || path.get_char(e - 2) == '/')))
        invariant
            e <= n,
            n == path@.len(),
            prune_trailing(path@) == prune_trailing(path@.subrange(0, e as int)),
        decreases e,
    {
        proof {
            assert(path@.subrange(0, e as int).drop_last() =~= path@.subrange(0, e - 1));
        }
        e = e - 1;
    }
    proof {
        if e == 0 {
            assert(prune_trailing(path@.subrange(0, 0)) =~= path@.subrange(0, 0));
        }
    }
    let mut b: usize = e;
    while b > 0 && path.get_char(b - 1) != '/'
        invariant
            b <= e <= n,
            n == path@.len(),
            forall|i: int| b <= i < e ==> path@[i] != '/',
        decreases b,
    {
        b = b - 1;
    }
    proof {
        lemma_after_last_separator_suffix(path@.subrange(0, e as int), b as int);
        assert(path@.subrange(0, e as int).subrange(b as int, e as int) =~= path@.subrange(
            b as int,
            e as int,
        ));
    }
    if b == e {
        None
    } else if e - b == 2 && path.get_char(b) == '.' && path.get_char(b + 1) == '.' {
        None
    } else {
        let name = path.substring_char(b, e);
        Some(name.to_owned())
    }
}

/// Compute the final link path for one source.
///
/// A missing destination is taken verbatim as the link name; a directory
/// destination receives the link under the source's base name; any other
/// existing destination is taken verbatim (the single-pair "rename" form —
/// the batch form rejects it before resolution, see `validate`).
pub fn resolve(source: &String, dest: &String, dest_kind: FileKind) -> (r: Result<String, Error>)
    ensures
        !(dest_kind is Directory) ==> (r matches Ok(t) && t@ == dest@),
        dest_kind is Directory && spec_basename(source@) is Some ==> (r matches Ok(t) && t@
            == dest@ + seq!['/'] + spec_basename(source@).unwrap()),
        dest_kind is Directory && spec_basename(source@) is None ==> (r matches Err(e)
            && e is MissingFileName),
{
    match dest_kind {
        FileKind::Directory => {
            match basename(source.as_str()) {
                Some(name) => {
                    let mut t = dest.clone();
                    t.append("/");
                    t.append(name.as_str());
                    proof {
                        reveal_strlit("/");
                        assert("/"@ =~= seq!['/']);
                    }
                    Ok(t)
                },
                None => Err(Error::MissingFileName),
            }
        },
        _ => Ok(dest.clone()),
    }
}

/// Validate the positional arguments before any link is processed: at least
/// two paths are needed, and the batch form (three or more) needs an
/// existing directory as its destination.
pub fn validate(file: &Vec<String>, dest_kind: FileKind) -> (r: Result<(), Error>)
    ensures
        file@.len() < 2 ==> (r matches Err(e) && e matches Error::LambError(m) && m@
            == "Incorrect Arguments"@),
        file@.len() == 2 ==> r is Ok,
        file@.len() > 2 && dest_kind is Directory ==> r is Ok,
        file@.len() > 2 && !(dest_kind is Directory) ==> (r matches Err(e) && e
            matches Error::NotADirectory { path } && path@ == file@.last()@),
{
    let len: usize = file.len();
    if len < 2 {
        Err(Error::LambError(String::from_str("Incorrect Arguments")))
    } else if len > 2 {
        match dest_kind {
            FileKind::Directory => Ok(()),
            _ => Err(Error::NotADirectory { path: file[len - 1].clone() }),
        }
    } else {
        Ok(())
    }
}

} // verus!
