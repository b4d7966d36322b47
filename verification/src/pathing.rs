//! Path text handling.
//!
//! Install locations and executables are carried as plain strings. Joining a
//! relative name onto a base directory and taking the final component of a
//! path are defined here once, over sequences of characters, and every
//! contract in the crate speaks of these definitions. Both `/` and `\` are
//! accepted as separators; a join inserts `/`.

use vstd::prelude::*;

verus! {

/// Characters accepted as path separators.
pub open spec fn is_separator(c: char) -> bool {
    c == '/' || c == '\\'
}

/// ASCII whitespace. A configured path whose characters are all whitespace
/// is treated the same as an absent one.
pub open spec fn is_space_char(c: char) -> bool {
    c == ' ' || c == '\t' || c == '\r' || c == '\n'
}

/// True of the empty string and of strings made only of whitespace.
pub open spec fn is_blank(s: Seq<char>) -> bool {
    forall|i: int| 0 <= i < s.len() ==> is_space_char(s[i])
}

/// The text that joining the relative `name` onto the directory `base`
/// yields: the two parts with exactly one separator between them, and `name`
/// alone when `base` is empty.
pub open spec fn spec_join(base: Seq<char>, name: Seq<char>) -> Seq<char> {
    if base.len() == 0 {
        name
    } else if is_separator(base[base.len() - 1]) {
        base + name
    } else {
        base + seq!['/'] + name
    }
}

/// The suffix of `p` after its last separator; all of `p` when it holds no
/// separator, and empty when `p` ends in a separator.
pub open spec fn tail_after_separator(p: Seq<char>) -> Seq<char>
    decreases p.len(),
{
    if p.len() == 0 {
        p
    } else if is_separator(p[p.len() - 1]) {
        Seq::empty()
    } else {
        tail_after_separator(p.drop_last()).push(p[p.len() - 1])
    }
}

/// The final component of the path `p`, if it has one.
pub open spec fn spec_file_name(p: Seq<char>) -> Option<Seq<char>> {
    if tail_after_separator(p).len() == 0 {
        None
    } else {
        Some(tail_after_separator(p))
    }
}

/// Is the string blank, that is, empty or whitespace only?
pub fn str_is_blank(s: &str) -> (r: bool)
    ensures
        r == is_blank(s@),
{
    let n = s.unicode_len();
    let mut i: usize = 0;
    while i < n
        invariant
            i <= n,
            n == s@.len(),
            forall|k: int| 0 <= k < i ==> is_space_char(s@[k]),
        decreases n - i,
    {
        let c = s.get_char(i);
        if !(c == ' ' || c == '\t' || c == '\r' || c == '\n') {
            return false;
        }
        i += 1;
    }
    true
}

/// Join the relative `name` onto the directory `base`.
pub fn join_path(base: &str, name: &str) -> (r: String)
    ensures
        r@ == spec_join(base@, name@),
{
    let n = base.unicode_len();
    let mut s = String::new();
    s.append(base);
    if n > 0 {
        let last = base.get_char(n - 1);
        if !(last == '/' || last == '\\') {
            s.append("/");
            proof {
                reveal_strlit("/");
                assert(s@ =~= base@ + seq!['/']);
            }
        }
    }
    s.append(name);
    proof {
        if n == 0 {
            assert(s@ =~= name@);
        }
    }
    s
}

/// `tail_after_separator` is the subrange that starts right after the last
/// separator: if nothing from `i` on is a separator, and `i` is either the
/// start of `p` or preceded by a separator, the tail is `p` from `i` on.
pub proof fn lemma_tail_is_subrange(p: Seq<char>, i: int)
    requires
        0 <= i <= p.len(),
        forall|k: int| i <= k < p.len() ==> !is_separator(p[k]),
        i > 0 ==> is_separator(p[i - 1]),
    ensures
        tail_after_separator(p) == p.subrange(i, p.len() as int),
    decreases p.len(),
{
    if p.len() == i {
        if i == 0 {
            assert(tail_after_separator(p) =~= p.subrange(0, 0));
        } else {
            assert(tail_after_separator(p) =~= p.subrange(i, p.len() as int));
        }
    } else {
        lemma_tail_is_subrange(p.drop_last(), i);
        assert(tail_after_separator(p) =~= p.subrange(i, p.len() as int));
    }
}

/// The final component of the path, as `spec_file_name` gives it.
pub fn file_name_of(path: &str) -> (r: Option<String>)
    ensures
        r matches Some(s) ==> spec_file_name(path@) == Some(s@),
        r is None ==> spec_file_name(path@) is None,
{
    let n = path.unicode_len();
    let mut i: usize = n;
    while i > 0
        invariant
            i <= n,
            n == path@.len(),
            forall|k: int| i <= k < n ==> !is_separator(path@[k]),
        ensures
            i <= n,
            forall|k: int| i <= k < n ==> !is_separator(path@[k]),
            i > 0 ==> is_separator(path@[i - 1]),
        decreases i,
    {
        let c = path.get_char(i - 1);
        if c == '/' || c == '\\' {
            break ;
        }
        i -= 1;
    }
    proof {
        lemma_tail_is_subrange(path@, i as int);
    }
    if i == n {
        None
    } else {
        let tail = path.substring_char(i, n);
        Some(tail.to_owned())
    }
}

} // verus!
