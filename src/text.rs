//! Helpers on lists of identifiers.
use vstd::prelude::*;

verus! {

pub fn copy_strings(v: &Vec<String>) -> (r: Vec<String>)
    ensures
        r.deep_view() == v.deep_view(),
{
    let r = v.clone();
    assert(r.deep_view() =~= v.deep_view());
    r
}

pub fn contains_string(v: &Vec<String>, s: &String) -> (r: bool)
    ensures
        r == v.deep_view().contains(s@),
{
    let mut i: usize = 0;
    while i < v.len()
        invariant
            i <= v.len(),
            forall|j: int| 0 <= j < i ==> v.deep_view()[j] != s@,
        decreases v.len() - i,
    {
        if v[i] == *s {
            assert(v.deep_view()[i as int] == s@);
            return true;
        }
        i += 1;
    }
    false
}

} // verus!

verus! {

/// The value of a text field after a partial update.
pub open spec fn patch_text(update: Option<String>, current: Seq<char>) -> Seq<char> {
    match update {
        Some(s) => s@,
        None => current,
    }
}

/// The value of a list field after a partial update.
pub open spec fn patch_list(update: Option<Vec<String>>, current: Seq<Seq<char>>) -> Seq<
    Seq<char>,
> {
    match update {
        Some(v) => v.deep_view(),
        None => current,
    }
}

/// The value of any other field after a partial update.
pub open spec fn patch<T>(update: Option<T>, current: T) -> T {
    match update {
        Some(v) => v,
        None => current,
    }
}

} // verus!
