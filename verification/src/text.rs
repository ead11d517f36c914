//! Text primitives shared by the rest of the crate: joining segments with a
//! delimiter and recognising a transport scheme in a URL.
use vstd::prelude::*;

verus! {

/// The views of the strings of `parts`, in order.
pub open spec fn views_of(parts: Seq<String>) -> Seq<Seq<char>> {
    Seq::new(parts.len(), |i: int| parts[i]@)
}

/// `parts` written one after another with `sep` between neighbours.
pub open spec fn joined(parts: Seq<Seq<char>>, sep: Seq<char>) -> Seq<char>
    decreases parts.len(),
{
    if parts.len() == 0 {
        Seq::empty()
    } else if parts.len() == 1 {
        parts[0]
    } else {
        joined(parts.drop_last(), sep) + sep + parts.last()
    }
}

/// Joins `parts` with `sep` between neighbours; no separator is written
/// before the first part or after the last.
pub fn join(parts: &Vec<String>, sep: &str) -> (out: String)
    ensures
        out@ == joined(views_of(parts@), sep@),
{
    let mut out = String::new();
    let mut i: usize = 0;
    while i < parts.len()
        invariant
            i <= parts.len(),
            out@ == joined(views_of(parts@).take(i as int), sep@),
        decreases parts.len() - i,
    {
        let ghost all = views_of(parts@);
        proof {
            assert(all.take(i + 1).drop_last() =~= all.take(i as int));
            assert(all.take(i + 1).last() == parts[i as int]@);
        }
        if i > 0 {
            out.append(sep);
        } else {
            assert(out@ + parts[i as int]@ =~= parts[i as int]@);
        }
        out.append(parts[i].as_str());
        i = i + 1;
    }
    proof {
        assert(views_of(parts@).take(parts.len() as int) =~= views_of(parts@));
    }
    out
}

/// Two parts are joined by writing the separator between them.
pub proof fn joined_pair(first: Seq<char>, second: Seq<char>, sep: Seq<char>)
    ensures
        joined(seq![first, second], sep) == first + sep + second,
{
    let parts = seq![first, second];
    assert(parts.drop_last() =~= seq![first]);
    assert(joined(parts.drop_last(), sep) == first);
}

/// A copy of `strings`.
pub fn copy_strings(strings: &Vec<String>) -> (copy: Vec<String>)
    ensures
        views_of(copy@) == views_of(strings@),
{
    let mut copy: Vec<String> = Vec::new();
    let mut i: usize = 0;
    while i < strings.len()
        invariant
            i <= strings.len(),
            copy@.len() == i,
            forall|k: int| 0 <= k < i ==> copy@[k]@ == strings@[k]@,
        decreases strings.len() - i,
    {
        copy.push(strings[i].clone());
        i = i + 1;
    }
    assert(views_of(copy@) =~= views_of(strings@));
    copy
}

/// Tells whether `left` and `right` hold the same strings in the same order.
pub fn same_strings(left: &Vec<String>, right: &Vec<String>) -> (same: bool)
    ensures
        same == (views_of(left@) == views_of(right@)),
{
    if left.len() != right.len() {
        assert(views_of(left@).len() != views_of(right@).len());
        return false;
    }
    let mut i: usize = 0;
    while i < left.len()
        invariant
            i <= left.len(),
            left.len() == right.len(),
            forall|k: int| 0 <= k < i ==> left@[k]@ == right@[k]@,
        decreases left.len() - i,
    {
        if left[i] != right[i] {
            assert(views_of(left@)[i as int] != views_of(right@)[i as int]);
            return false;
        }
        i = i + 1;
    }
    assert(views_of(left@) =~= views_of(right@));
    true
}

/// Whether the three characters of `s` from position `i` on are `://`.
pub open spec fn scheme_separator_at(s: Seq<char>, i: int) -> bool {
    &&& 0 <= i
    &&& i + 3 <= s.len()
    &&& s[i] == ':'
    &&& s[i + 1] == '/'
    &&& s[i + 2] == '/'
}

/// Whether `s` names a transport scheme, that is, holds `://` somewhere.
pub open spec fn has_scheme(s: Seq<char>) -> bool {
    exists|i: int| scheme_separator_at(s, i)
}

/// Tells whether `url` names a transport scheme.
pub fn names_scheme(url: &str) -> (found: bool)
    ensures
        found == has_scheme(url@),
{
    // Length of the longest prefix of `://` that ends the text read so far.
    let mut matched: u8 = 0;
    for c in it: url.chars()
        invariant
            it.seq() == url@,
            matched <= 2,
            matched == 1 ==> it.index() >= 1 && url@[it.index() - 1] == ':',
            matched == 2 ==> it.index() >= 2 && url@[it.index() - 2] == ':' && url@[it.index()
                - 1] == '/',
            matched == 0 ==> (it.index() >= 1 ==> url@[it.index() - 1] != ':') && (it.index() >= 2
                ==> !(url@[it.index() - 2] == ':' && url@[it.index() - 1] == '/')),
            forall|i: int| i + 3 <= it.index() ==> !scheme_separator_at(url@, i),
    {
        if c == ':' {
            matched = 1;
        } else if c == '/' && matched == 1 {
            matched = 2;
        } else if c == '/' && matched == 2 {
            assert(scheme_separator_at(url@, it.index() - 2));
            return true;
        } else {
            matched = 0;
        }
    }
    false
}

} // verus!
