//! Parsing of the interactive confirmation answer.
//!
//! The surrounding program prints the `Replace '<target>'? [y/N]` prompt,
//! reads one line from the terminal, and hands the raw line here; whether it
//! counts as consent is decided — and specified — in this module.
use vstd::prelude::*;
use vstd::string::StrSliceExecFns;

verus! {

/// The characters an answer is trimmed of: Unicode's White_Space set —
/// the ASCII whitespace controls and space, next line, no-break space,
/// ogham space mark, the en-quad..hair-space run, the line and paragraph
/// separators, the narrow no-break, medium mathematical and ideographic
/// spaces.
pub open spec fn is_space(c: char) -> bool {
    ('\u{9}' <= c && c <= '\u{d}') || c == ' ' || c == '\u{85}' || c == '\u{a0}' || c == '\u{1680}'
        || ('\u{2000}' <= c && c <= '\u{200a}') || c == '\u{2028}' || c == '\u{2029}'
        || c == '\u{202f}' || c == '\u{205f}' || c == '\u{3000}'
}

/// The answer with its leading whitespace removed.
pub open spec fn trim_start(s: Seq<char>) -> Seq<char>
    decreases s.len(),
{
    if s.len() > 0 && is_space(s.first()) {
        trim_start(s.drop_first())
    } else {
        s
    }
}

/// The answer with its trailing whitespace removed.
pub open spec fn trim_end(s: Seq<char>) -> Seq<char>
    decreases s.len(),
{
    if s.len() > 0 && is_space(s.last()) {
        trim_end(s.drop_last())
    } else {
        s
    }
}

/// The answer with whitespace removed from both ends.
pub open spec fn trim(s: Seq<char>) -> Seq<char> {
    trim_end(trim_start(s))
}

/// An answer is affirmative exactly when, after trimming whitespace, it
/// equals `y` or `yes` case-insensitively; everything else — the empty
/// line included — is a decline.
pub open spec fn spec_affirmative(s: Seq<char>) -> bool {
    let t = trim(s);
    (t.len() == 1 && (t[0] == 'y' || t[0] == 'Y')) || (t.len() == 3 && (t[0] == 'y' || t[0] == 'Y')
        && (t[1] == 'e' || t[1] == 'E') && (t[2] == 's' || t[2] == 'S'))
}

fn is_space_char(c: char) -> (b: bool)
    ensures
        b == is_space(c),
{
    ('\u{9}' <= c && c <= '\u{d}') || c == ' ' || c == '\u{85}' || c == '\u{a0}' || c == '\u{1680}'
        || ('\u{2000}' <= c && c <= '\u{200a}') || c == '\u{2028}' || c == '\u{2029}'
        || c == '\u{202f}' || c == '\u{205f}' || c == '\u{3000}'
}

/// Decide whether one line of terminal input consents to replacing an
/// existing destination.
pub fn is_affirmative(line: &str) -> (r: bool)
    ensures
        r == spec_affirmative(line@),
{
    let n: usize = line.unicode_len();
    proof {
        assert(line@.subrange(0, n as int) =~= line@);
    }
    let mut b: usize = 0;
    while b < n && is_space_char(line.get_char(b))
        invariant
            b <= n,
            n == line@.len(),
            trim_start(line@) == trim_start(line@.subrange(b as int, n as int)),
        decreases n - b,
    {
        proof {
            assert(line@.subrange(b as int, n as int).drop_first() =~= line@.subrange(
                b + 1,
                n as int,
            ));
        }
        b = b + 1;
    }
    proof {
        if b == n {
            assert(line@.subrange(b as int, n as int) =~= Seq::<char>::empty());
        }
        assert(trim_start(line@) == line@.subrange(b as int, n as int));
    }
    let mut e: usize = n;
    while e > b && is_space_char(line.get_char(e - 1))
        invariant
            b <= e <= n,
            n == line@.len(),
            trim_end(line@.subrange(b as int, n as int)) == trim_end(
                line@.subrange(b as int, e as int),
            ),
        decreases e,
    {
        proof {
            assert(line@.subrange(b as int, e as int).drop_last() =~= line@.subrange(
                b as int,
                e - 1,
            ));
        }
        e = e - 1;
    }
    proof {
        if b == e {
            assert(line@.subrange(b as int, e as int) =~= Seq::<char>::empty());
        }
        assert(trim(line@) == line@.subrange(b as int, e as int));
    }
    if e - b == 1 {
        let c0 = line.get_char(b);
        c0 == 'y' || c0 == 'Y'
    } else if e - b == 3 {
        let c0 = line.get_char(b);
        let c1 = line.get_char(b + 1);
        let c2 = line.get_char(b + 2);
        (c0 == 'y' || c0 == 'Y') && (c1 == 'e' || c1 == 'E') && (c2 == 's' || c2 == 'S')
    } else {
        false
    }
}

} // verus!
