//! Small helpers for owned strings and lists of names.
//!
//! Contracts in this crate speak of a `String` through its view, a
//! `Seq<char>`, and of a `Vec<String>` through its deep view, a
//! `Seq<Seq<char>>`.

use vstd::prelude::*;

verus! {

/// Appends an owned copy of `name` to `list`.
pub fn push_name(list: &mut Vec<String>, name: &str)
    ensures
        final(list).deep_view() == old(list).deep_view().push(name@),
{
    list.push(name.to_owned());
}

/// Returns a list that holds the same names as `list`, in the same order.
pub fn copy_names(list: &Vec<String>) -> (copy: Vec<String>)
    ensures
        copy.deep_view() == list.deep_view(),
{
    let mut copy: Vec<String> = Vec::new();
    let mut i: usize = 0;
    while i < list.len()
        invariant
            i <= list.len(),
            copy.deep_view() == list.deep_view().take(i as int),
        decreases list.len() - i,
    {
        copy.push(list[i].clone());
        assert(list.deep_view().take(i + 1) =~= list.deep_view().take(i as int).push(
            list[i as int]@,
        ));
        i += 1;
    }
    copy
}

} // verus!
