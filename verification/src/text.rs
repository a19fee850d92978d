//! Cutting a text into fields and lines.

use vstd::prelude::*;

verus! {

/// Index of the first `c` in `s` at or after `from`; the length of `s`
/// where there is none.
pub open spec fn index_from(s: Seq<char>, c: char, from: int) -> int
    decreases s.len() - from,
{
    if from >= s.len() || s[from] == c {
        from
    } else {
        index_from(s, c, from + 1)
    }
}

/// Where the field numbered `k` begins, counting from 0, when `s` is cut at
/// every single space; `None` where `s` has no more than `k` fields.
pub open spec fn field_start(s: Seq<char>, k: nat) -> Option<int>
    decreases k,
{
    if k == 0 {
        Some(0)
    } else {
        match field_start(s, (k - 1) as nat) {
            Some(begin) => {
                let end = index_from(s, ' ', begin);
                if end < s.len() {
                    Some(end + 1)
                } else {
                    None
                }
            },
            None => None,
        }
    }
}

/// The field numbered `k` of `s`, counting from 0, when `s` is cut at every
/// single space: two spaces in a row hold an empty field between them.
pub open spec fn field(s: Seq<char>, k: nat) -> Option<Seq<char>> {
    match field_start(s, k) {
        Some(begin) => Some(s.subrange(begin, index_from(s, ' ', begin))),
        None => None,
    }
}

/// `index_from` stays within the text and stops on `c` or at the end.
pub proof fn lemma_index_from(s: Seq<char>, c: char, from: int)
    requires
        0 <= from <= s.len(),
    ensures
        from <= index_from(s, c, from) <= s.len(),
        index_from(s, c, from) < s.len() ==> s[index_from(s, c, from)] == c,
        forall|i: int| from <= i < index_from(s, c, from) ==> s[i] != c,
    decreases s.len() - from,
{
    if from < s.len() && s[from] != c {
        lemma_index_from(s, c, from + 1);
    }
}

/// Index of the first `c` in `s` at or after `from`; `len`, the length of
/// `s` in characters, where there is none.
pub(crate) fn find_from(s: &str, len: usize, c: char, from: usize) -> (end: usize)
    requires
        len == s@.len(),
        from <= len,
    ensures
        end == index_from(s@, c, from as int),
        from <= end <= len,
{
    let mut i: usize = from;
    while i < len && s.get_char(i) != c
        invariant
            from <= i <= len,
            len == s@.len(),
            index_from(s@, c, from as int) == index_from(s@, c, i as int),
        decreases len - i,
    {
        i = i + 1;
    }
    i
}

/// The first three fields of `s`, cut at every single space. A text
/// without a space is one field; what follows a third space is left out.
pub fn split_fields(s: &str) -> (r: (&str, Option<&str>, Option<&str>))
    ensures
        Some(r.0@) == field(s@, 0),
        r.1 matches Some(f) ==> field(s@, 1) == Some(f@),
        r.1 is None ==> field(s@, 1) is None,
        r.2 matches Some(f) ==> field(s@, 2) == Some(f@),
        r.2 is None ==> field(s@, 2) is None,
{
    let len: usize = s.unicode_len();
    let end0: usize = find_from(s, len, ' ', 0);
    let first: &str = s.substring_char(0, end0);
    proof {
        reveal_with_fuel(field_start, 3);
    }
    if end0 == len {
        return (first, None, None);
    }
    let end1: usize = find_from(s, len, ' ', end0 + 1);
    let second: &str = s.substring_char(end0 + 1, end1);
    if end1 == len {
        return (first, Some(second), None);
    }
    let end2: usize = find_from(s, len, ' ', end1 + 1);
    let third: &str = s.substring_char(end1 + 1, end2);
    (first, Some(second), Some(third))
}

} // verus!
