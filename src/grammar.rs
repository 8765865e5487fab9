//! The line grammar of an event stream: a line is a dispatch boundary, a
//! comment, a line without a colon, or a `field: content` pair.
use vstd::prelude::*;
use crate::text::{trim_end, trim_end_of};

verus! {

/// The index of the first `:` in `s`, or -1 where there is none.
pub open spec fn first_colon(s: Seq<char>) -> int {
    if exists|i: int| 0 <= i < s.len() && s[i] == ':' {
        choose|i: int|
            0 <= i < s.len() && s[i] == ':' && forall|j: int| 0 <= j < i ==> s[j] != ':'
    } else {
        -1
    }
}

/// A field's content, given what follows its colon: one leading space is
/// dropped, then trailing white space.
pub open spec fn field_content(rest: Seq<char>) -> Seq<char> {
    if rest.len() > 0 && rest[0] == ' ' {
        trim_end_of(rest.drop_first())
    } else {
        trim_end_of(rest)
    }
}

/// The name and content of the field that a line sets; `None` for a line
/// without a colon and for a comment (a line that starts with a colon).
pub open spec fn field_of(line: Seq<char>) -> Option<(Seq<char>, Seq<char>)> {
    let i = first_colon(line);
    if i <= 0 {
        None
    } else {
        Some((line.subrange(0, i), field_content(line.subrange(i + 1, line.len() as int))))
    }
}

/// A line that consists of one line feed ends a record.
pub open spec fn is_dispatch(line: Seq<char>) -> bool {
    line == seq!['\n']
}

#[derive(Clone, Copy, Debug, PartialEq, Eq)]
pub enum FieldName {
    Event,
    Data,
    Id,
    Retry,
    Other,
}

pub open spec fn field_name_of(s: Seq<char>) -> FieldName {
    if s == seq!['e', 'v', 'e', 'n', 't'] {
        FieldName::Event
    } else if s == seq!['d', 'a', 't', 'a'] {
        FieldName::Data
    } else if s == seq!['i', 'd'] {
        FieldName::Id
    } else if s == seq!['r', 'e', 't', 'r', 'y'] {
        FieldName::Retry
    } else {
        FieldName::Other
    }
}

/// Which of the known fields a name denotes.
pub fn field_name(s: &[char]) -> (r: FieldName)
    ensures
        r == field_name_of(s@),
{
    let n = s.len();
    if n == 5 && s[0] == 'e' && s[1] == 'v' && s[2] == 'e' && s[3] == 'n' && s[4] == 't' {
        assert(s@ =~= seq!['e', 'v', 'e', 'n', 't']);
        FieldName::Event
    } else if n == 4 && s[0] == 'd' && s[1] == 'a' && s[2] == 't' && s[3] == 'a' {
        assert(s@ =~= seq!['d', 'a', 't', 'a']);
        FieldName::Data
    } else if n == 2 && s[0] == 'i' && s[1] == 'd' {
        assert(s@ =~= seq!['i', 'd']);
        FieldName::Id
    } else if n == 5 && s[0] == 'r' && s[1] == 'e' && s[2] == 't' && s[3] == 'r' && s[4] == 'y' {
        assert(s@ =~= seq!['r', 'e', 't', 'r', 'y']);
        FieldName::Retry
    } else {
        assert(s@ != seq!['e', 'v', 'e', 'n', 't']);
        assert(s@ != seq!['d', 'a', 't', 'a']);
        assert(s@ != seq!['i', 'd']);
        assert(s@ != seq!['r', 'e', 't', 'r', 'y']);
        FieldName::Other
    }
}

/// Whether the line is the dispatch boundary.
pub fn line_is_dispatch(line: &[char]) -> (r: bool)
    ensures
        r == is_dispatch(line@),
{
    if line.len() == 1 && line[0] == '\n' {
        assert(line@ =~= seq!['\n']);
        true
    } else {
        assert(line@ != seq!['\n']);
        false
    }
}

/// The characters `v[lo..hi]`.
fn copy_range(v: &[char], lo: usize, hi: usize) -> (r: Vec<char>)
    requires
        lo <= hi <= v@.len(),
    ensures
        r@ == v@.subrange(lo as int, hi as int),
{
    let mut r: Vec<char> = Vec::new();
    let mut k: usize = lo;
    while k < hi
        invariant
            lo <= k <= hi <= v@.len(),
            r@ == v@.subrange(lo as int, k as int),
        decreases hi - k,
    {
        r.push(v[k]);
        assert(r@ =~= v@.subrange(lo as int, k + 1));
        k += 1;
    }
    r
}

/// Splits a line into the name and the content of the field it sets.
pub fn split_field(line: &[char]) -> (r: Option<(Vec<char>, Vec<char>)>)
    ensures
        match r {
            Some((name, content)) => field_of(line@) == Some((name@, content@)),
            None => field_of(line@) is None,
        },
{
    let n = line.len();
    let mut i: usize = 0;
    while i < n && line[i] != ':'
        invariant
            0 <= i <= n,
            n == line@.len(),
            forall|j: int| 0 <= j < i ==> line@[j] != ':',
        decreases n - i,
    {
        i += 1;
    }
    if i == n {
        assert(!exists|k: int| 0 <= k < line@.len() && line@[k] == ':');
        return None;
    }
    assert(0 <= i < line@.len() && line@[i as int] == ':');
    let ghost c = first_colon(line@);
    assert(c == i) by {
        let ci = choose|k: int|
            0 <= k < line@.len() && line@[k] == ':' && forall|j: int|
                0 <= j < k ==> line@[j] != ':';
        assert(ci == c);
        if ci < i {
        } else if ci > i {
            assert(line@[i as int] != ':');
        }
    }
    if i == 0 {
        return None;
    }
    let name = copy_range(line, 0, i);
    let start: usize = if i + 1 < n && line[i + 1] == ' ' { i + 2 } else { i + 1 };
    let raw = copy_range(line, start, n);
    let content = trim_end(raw.as_slice());
    proof {
        let rest = line@.subrange(i + 1, n as int);
        if rest.len() > 0 && rest[0] == ' ' {
            assert(rest.drop_first() =~= raw@);
        } else {
            assert(rest =~= raw@);
        }
    }
    Some((name, content))
}

/// Whether the characters hold a null character.
pub fn has_nul(v: &[char]) -> (r: bool)
    ensures
        r == v@.contains('\0'),
{
    let mut i: usize = 0;
    while i < v.len()
        invariant
            0 <= i <= v@.len(),
            forall|j: int| 0 <= j < i ==> v@[j] != '\0',
        decreases v@.len() - i,
    {
        if v[i] == '\0' {
            return true;
        }
        i += 1;
    }
    false
}

} // verus!
