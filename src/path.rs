//! Where an archive is extracted to: beside it, in a directory named after
//! the file without its extension.
use vstd::prelude::*;

verus! {

/// Both separators are accepted: the forward one, and the backslash that
/// Windows writes.
pub open spec fn is_separator(c: char) -> bool {
    c == '/' || c == '\\'
}

/// How many leading characters of `p` lie up to and including its last
/// separator; 0 when it has none.
pub open spec fn dir_prefix_len(p: Seq<char>) -> nat
    decreases p.len(),
{
    if p.len() == 0 {
        0
    } else if is_separator(p.last()) {
        p.len()
    } else {
        dir_prefix_len(p.drop_last())
    }
}

/// The directory part of `p`, with its final separator.
pub open spec fn dir_part(p: Seq<char>) -> Seq<char> {
    p.subrange(0, dir_prefix_len(p) as int)
}

/// What follows the last separator of `p`.
pub open spec fn file_name(p: Seq<char>) -> Seq<char> {
    p.subrange(dir_prefix_len(p) as int, p.len() as int)
}

/// Index of the last `.` in `n`, or -1.
pub open spec fn last_dot(n: Seq<char>) -> int
    decreases n.len(),
{
    if n.len() == 0 {
        -1
    } else if n.last() == '.' {
        n.len() - 1
    } else {
        last_dot(n.drop_last())
    }
}

/// A file name without its extension. A name with no dot, or whose only
/// dot is its first character (`.profile`), is its own stem.
pub open spec fn stem(n: Seq<char>) -> Seq<char> {
    if last_dot(n) > 0 {
        n.subrange(0, last_dot(n))
    } else {
        n
    }
}

/// The directory that stands in for a missing parent: the working
/// directory, written as the empty stem joined to `.`.
pub open spec fn current_dir() -> Seq<char> {
    ".\\"@
}

/// The directory that the archive at `p` is extracted into: its parent
/// directory joined with its stem. When `p` has no separator, the result is
/// relative, as `p` is. A path with an empty name (a root, as canonical
/// paths end in a separator only there) has no parent and no stem: the
/// working directory is taken instead.
pub open spec fn out_dir_of(p: Seq<char>) -> Seq<char> {
    if file_name(p).len() == 0 {
        current_dir()
    } else {
        dir_part(p) + stem(file_name(p))
    }
}

proof fn lemma_dir_prefix_len_bound(p: Seq<char>)
    ensures
        dir_prefix_len(p) <= p.len(),
    decreases p.len(),
{
    if p.len() > 0 && !is_separator(p.last()) {
        lemma_dir_prefix_len_bound(p.drop_last());
    }
}

proof fn lemma_last_dot_bound(n: Seq<char>)
    ensures
        -1 <= last_dot(n) < n.len(),
        last_dot(n) >= 0 ==> n[last_dot(n)] == '.',
    decreases n.len(),
{
    if n.len() > 0 && n.last() != '.' {
        lemma_last_dot_bound(n.drop_last());
    }
}

/// Scans `p` from its end for the last separator.
fn dir_prefix_length(p: &str) -> (r: usize)
    ensures
        r == dir_prefix_len(p@),
{
    let mut i: usize = p.unicode_len();
    assert(p@.subrange(0, i as int) =~= p@);
    while i > 0
        invariant
            i <= p@.len(),
            dir_prefix_len(p@.subrange(0, i as int)) == dir_prefix_len(p@),
        decreases i,
    {
        let c = p.get_char(i - 1);
        assert(p@.subrange(0, i as int).drop_last() =~= p@.subrange(0, i - 1));
        if c == '/' || c == '\\' {
            return i;
        }
        i = i - 1;
    }
    assert(p@.subrange(0, 0) =~= Seq::<char>::empty());
    0
}

/// Scans `n` from its end for the last dot.
fn last_dot_index(n: &str) -> (r: Option<usize>)
    ensures
        match r {
            Some(d) => d == last_dot(n@),
            None => last_dot(n@) == -1,
        },
{
    let mut i: usize = n.unicode_len();
    assert(n@.subrange(0, i as int) =~= n@);
    while i > 0
        invariant
            i <= n@.len(),
            last_dot(n@.subrange(0, i as int)) == last_dot(n@),
        decreases i,
    {
        let c = n.get_char(i - 1);
        assert(n@.subrange(0, i as int).drop_last() =~= n@.subrange(0, i - 1));
        if c == '.' {
            return Some(i - 1);
        }
        i = i - 1;
    }
    assert(n@.subrange(0, 0) =~= Seq::<char>::empty());
    None
}

/// The directory that the archive at `resolved` is extracted into.
pub fn output_dir(resolved: &str) -> (r: String)
    ensures
        r@ == out_dir_of(resolved@),
{
    proof {
        lemma_dir_prefix_len_bound(resolved@);
    }
    let len = resolved.unicode_len();
    let k = dir_prefix_length(resolved);
    let dir = resolved.substring_char(0, k);
    let name = resolved.substring_char(k, len);
    if k == len {
        return String::from_str(".\\");
    }
    proof {
        lemma_last_dot_bound(name@);
    }
    let stem_str = match last_dot_index(name) {
        Some(d) => {
            if d > 0 {
                name.substring_char(0, d)
            } else {
                name
            }
        },
        None => name,
    };
    String::from_str(dir).concat(stem_str)
}

/// A file name without a dot is its own stem: the archive's output
/// directory is then the path itself.
pub proof fn lemma_no_extension_keeps_path(p: Seq<char>)
    requires
        file_name(p).len() > 0,
        forall|i: int| 0 <= i < file_name(p).len() ==> file_name(p)[i] != '.',
    ensures
        out_dir_of(p) == p,
{
    lemma_dir_prefix_len_bound(p);
    lemma_last_dot_bound(file_name(p));
    assert(dir_part(p) + file_name(p) =~= p);
}

} // verus!
