//! The list of device names, in order.
//!
//! Names are ordered as strings are: by the bytes of their UTF-8 encoding.

use crate::text::{
    lemma_bytes_le_total, lemma_bytes_le_transitive, text_le, text_precedes,
};
use vstd::prelude::*;
use vstd::seq_lib::{to_multiset_build, to_multiset_remove};
use vstd::utf8::encode_utf8;

verus! {

/// Whether no name comes before one that is smaller.
pub open spec fn names_sorted(names: Seq<String>) -> bool {
    forall|i: int, j: int| 0 <= i <= j < names.len() ==> text_le(names[i]@, names[j]@)
}

/// Putting a name into a sorted list, behind the names that are at most it
/// and before the others, keeps the list sorted.
proof fn lemma_insert_keeps_sorted(names: Seq<String>, at: int, name: String)
    requires
        names_sorted(names),
        0 <= at <= names.len(),
        forall|k: int| 0 <= k < at ==> text_le(names[k]@, name@),
        at < names.len() ==> !text_le(names[at]@, name@),
    ensures
        names_sorted(names.insert(at, name)),
{
    let longer = names.insert(at, name);
    assert forall|i: int, j: int| 0 <= i <= j < longer.len() implies text_le(
        longer[i]@,
        longer[j]@,
    ) by {
        if i == j {
            crate::text::lemma_bytes_le_reflexive(encode_utf8(longer[i]@));
        } else if j == at {
            assert(longer[i] == names[i]);
            assert(text_le(names[i]@, name@));
        } else if i == at {
            assert(longer[j] == names[j - 1]);
            assert(text_le(names[at]@, names[j - 1]@));
            lemma_bytes_le_total(encode_utf8(names[at]@), encode_utf8(name@));
            lemma_bytes_le_transitive(
                encode_utf8(name@),
                encode_utf8(names[at]@),
                encode_utf8(names[j - 1]@),
            );
        } else {
            let before_i = if i < at { i } else { i - 1 };
            let before_j = if j < at { j } else { j - 1 };
            assert(longer[i] == names[before_i]);
            assert(longer[j] == names[before_j]);
            assert(text_le(names[before_i]@, names[before_j]@));
        }
    }
}

/// Putting a name into a list adds that name to what the list holds, and
/// nothing else.
proof fn lemma_insert_adds_one(names: Seq<String>, at: int, name: String)
    requires
        0 <= at <= names.len(),
    ensures
        names.insert(at, name).to_multiset() == names.to_multiset().insert(name),
{
    let longer = names.insert(at, name);
    assert(longer.remove(at) =~= names);
    to_multiset_remove(longer, at);
    longer.to_multiset_ensures();
    assert(longer.contains(name)) by {
        assert(longer[at] == name);
    }
    assert(longer.to_multiset() =~= names.to_multiset().insert(name));
}

/// Sorts names into ascending order. The result holds the names given, each
/// as often as it was given.
pub fn sort_names(names: Vec<String>) -> (sorted: Vec<String>)
    ensures
        names_sorted(sorted@),
        sorted@.to_multiset() == names@.to_multiset(),
{
    let ghost given = names@;
    let mut rest = names;
    let mut sorted: Vec<String> = Vec::new();
    assert(sorted@.to_multiset().add(rest@.to_multiset()) =~= given.to_multiset()) by {
        sorted@.to_multiset_ensures();
        assert(sorted@.to_multiset().len() == 0);
    }
    while rest.len() > 0
        invariant
            names_sorted(sorted@),
            sorted@.to_multiset().add(rest@.to_multiset()) == given.to_multiset(),
        decreases rest@.len(),
    {
        let ghost rest_before = rest@;
        let ghost sorted_before = sorted@;
        let name = rest.pop().unwrap();
        let mut at: usize = 0;
        while at < sorted.len() && text_precedes(sorted[at].as_str(), name.as_str())
            invariant
                at <= sorted@.len(),
                forall|k: int| 0 <= k < at ==> text_le(sorted@[k]@, name@),
            decreases sorted@.len() - at,
        {
            at += 1;
        }
        sorted.insert(at, name);
        proof {
            lemma_insert_keeps_sorted(sorted_before, at as int, name);
            lemma_insert_adds_one(sorted_before, at as int, name);
            assert(rest_before =~= rest@.push(name));
            to_multiset_build(rest@, name);
            assert(sorted@.to_multiset().add(rest@.to_multiset()) =~= sorted_before.to_multiset().add(
                rest_before.to_multiset(),
            ));
        }
    }
    proof {
        rest@.to_multiset_ensures();
        assert(rest@.to_multiset().len() == 0);
        assert(sorted@.to_multiset() =~= sorted@.to_multiset().add(rest@.to_multiset()));
    }
    sorted
}

/// The names of the devices found, in ascending order; none where the
/// devices could not be listed.
pub fn get_ports<E>(listed: Result<Vec<String>, E>) -> (names: Vec<String>)
    ensures
        listed is Err ==> names@.len() == 0,
        listed matches Ok(found) ==> names_sorted(names@) && names@.to_multiset()
            == found@.to_multiset(),
{
    match listed {
        Ok(found) => sort_names(found),
        Err(_) => Vec::new(),
    }
}

} // verus!
