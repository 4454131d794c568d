//! Small verified text utilities: string equality, searching for the last
//! occurrence of a character, and the file-name / extension views of a path
//! written with `/` separators.

use vstd::prelude::*;
use vstd::string::StrSliceExecFns;

verus! {

/// Compares two string slices character by character.
pub fn str_eq(a: &str, b: &str) -> (r: bool)
    ensures
        r == (a@ == b@),
{
    let a_len = a.unicode_len();
    let b_len = b.unicode_len();
    if a_len != b_len {
        return false;
    }
    let mut i: usize = 0;
    while i < a_len
        invariant
            a_len == a@.len(),
            b_len == b@.len(),
            a_len == b_len,
            i <= a_len,
            forall|k: int| 0 <= k < i ==> a@[k] == b@[k],
        decreases a_len - i,
    {
        if a.get_char(i) != b.get_char(i) {
            return false;
        }
        i = i + 1;
    }
    proof {
        assert(a@ =~= b@);
    }
    true
}

/// The index of the last occurrence of `c` in `s`, if any.
pub open spec fn spec_rfind(s: Seq<char>, c: char) -> Option<int>
    decreases s.len(),
{
    if s.len() == 0 {
        None
    } else if s[s.len() - 1] == c {
        Some(s.len() - 1)
    } else {
        spec_rfind(s.drop_last(), c)
    }
}

/// Characters at or beyond position `i` other than `c` do not change where the
/// last occurrence of `c` is found.
proof fn lemma_rfind_ignores_tail(s: Seq<char>, c: char, i: int)
    requires
        0 <= i <= s.len(),
        forall|k: int| i <= k < s.len() ==> s[k] != c,
    ensures
        spec_rfind(s, c) == spec_rfind(s.take(i), c),
    decreases s.len() - i,
{
    if i == s.len() {
        assert(s.take(i) =~= s);
    } else {
        assert(s[s.len() - 1] != c);
        assert(s.drop_last() =~= s.take(s.len() - 1));
        lemma_rfind_ignores_tail(s.take(s.len() - 1), c, i);
        assert(s.take(s.len() - 1).take(i) =~= s.take(i));
    }
}

/// Finds the last occurrence of `c` in `s`, scanning from the end.
pub fn rfind_char(s: &str, c: char) -> (r: Option<usize>)
    ensures
        match r {
            Some(i) => i < s@.len() && spec_rfind(s@, c) == Some(i as int),
            None => spec_rfind(s@, c) is None,
        },
{
    let len = s.unicode_len();
    let mut i: usize = len;
    while i > 0
        invariant
            len == s@.len(),
            i <= len,
            forall|k: int| i <= k < s@.len() ==> s@[k] != c,
        decreases i,
    {
        let ch = s.get_char(i - 1);
        if ch == c {
            proof {
                lemma_rfind_ignores_tail(s@, c, i as int);
                assert(s@.take(i as int)[i - 1] == s@[i - 1]);
            }
            return Some(i - 1);
        }
        i = i - 1;
    }
    proof {
        lemma_rfind_ignores_tail(s@, c, 0);
        assert(s@.take(0).len() == 0);
    }
    None
}

/// The final path component of `s`: everything after the last `/`, or all of
/// `s` when it holds no `/`.
pub open spec fn spec_file_name(s: Seq<char>) -> Seq<char> {
    match spec_rfind(s, '/') {
        Some(i) => s.subrange(i + 1, s.len() as int),
        None => s,
    }
}

/// Returns the final path component of `s`.
pub fn file_name_of(s: &str) -> (r: &str)
    ensures
        r@ == spec_file_name(s@),
{
    let len = s.unicode_len();
    match rfind_char(s, '/') {
        Some(i) => s.substring_char(i + 1, len),
        None => s,
    }
}

/// The extension of `s`: everything after the last `.`, or nothing when `s`
/// holds no `.`.
pub open spec fn spec_extension(s: Seq<char>) -> Option<Seq<char>> {
    match spec_rfind(s, '.') {
        Some(i) => Some(s.subrange(i + 1, s.len() as int)),
        None => None,
    }
}

/// Returns the extension of `s`, if it has one.
pub fn extension_of(s: &str) -> (r: Option<&str>)
    ensures
        match r {
            Some(e) => spec_extension(s@) == Some(e@),
            None => spec_extension(s@) is None,
        },
{
    let len = s.unicode_len();
    match rfind_char(s, '.') {
        Some(i) => Some(s.substring_char(i + 1, len)),
        None => None,
    }
}

} // verus!
