//! Operations on the lists that the application keeps: copying, filtering and
//! searching, each proved against the model's sequences.
use vstd::prelude::*;
use crate::model::{entries_view, without_id, without_ids, without_value, BlacklistEntry};

verus! {

broadcast use Seq::lemma_filter_push;

proof fn lemma_take_succ<A>(v: Seq<A>, i: int)
    requires
        0 <= i < v.len(),
    ensures
        v.take(i + 1) == v.take(i).push(v[i]),
{
    assert(v.take(i + 1) =~= v.take(i).push(v[i]));
}

proof fn lemma_entries_view_push(v: Seq<BlacklistEntry>, e: BlacklistEntry)
    ensures
        entries_view(v.push(e)) == entries_view(v).push(e@),
{
    assert(entries_view(v.push(e)) =~= entries_view(v).push(e@));
}

/// A copy of one entry, with a copy of its domain.
pub fn copy_entry(e: &BlacklistEntry) -> (r: BlacklistEntry)
    ensures
        r@ == e@,
{
    BlacklistEntry { id: e.id, domain: e.domain.clone(), hits: e.hits }
}

/// A copy of a list of entries.
pub fn copy_entries(v: &Vec<BlacklistEntry>) -> (r: Vec<BlacklistEntry>)
    ensures
        entries_view(r@) == entries_view(v@),
{
    let mut r: Vec<BlacklistEntry> = Vec::new();
    let mut i: usize = 0;
    while i < v.len()
        invariant
            i <= v.len(),
            entries_view(r@) == entries_view(v@.take(i as int)),
        decreases v.len() - i,
    {
        let c = copy_entry(&v[i]);
        proof {
            lemma_take_succ(v@, i as int);
            lemma_entries_view_push(r@, c);
            lemma_entries_view_push(v@.take(i as int), v@[i as int]);
        }
        r.push(c);
        i += 1;
    }
    proof {
        assert(v@.take(v.len() as int) =~= v@);
    }
    r
}

/// The entries of `v` whose id differs from `id`, in their order.
pub fn entries_without_id(v: &Vec<BlacklistEntry>, id: i32) -> (r: Vec<BlacklistEntry>)
    ensures
        entries_view(r@) == without_id(entries_view(v@), id),
{
    let mut r: Vec<BlacklistEntry> = Vec::new();
    let mut i: usize = 0;
    while i < v.len()
        invariant
            i <= v.len(),
            entries_view(r@) == without_id(entries_view(v@.take(i as int)), id),
        decreases v.len() - i,
    {
        proof {
            lemma_take_succ(v@, i as int);
            lemma_entries_view_push(v@.take(i as int), v@[i as int]);
        }
        if v[i].id != id {
            let c = copy_entry(&v[i]);
            proof {
                lemma_entries_view_push(r@, c);
            }
            r.push(c);
        }
        i += 1;
    }
    proof {
        assert(v@.take(v.len() as int) =~= v@);
    }
    r
}

/// Whether `id` occurs in `ids`.
pub fn contains_id(ids: &Vec<i32>, id: i32) -> (r: bool)
    ensures
        r == ids@.contains(id),
{
    let mut i: usize = 0;
    while i < ids.len()
        invariant
            i <= ids.len(),
            forall|j: int| 0 <= j < i ==> ids@[j] != id,
        decreases ids.len() - i,
    {
        if ids[i] == id {
            return true;
        }
        i += 1;
    }
    false
}

/// The entries of `v` whose id is not in `ids`, in their order.
pub fn entries_without_ids(v: &Vec<BlacklistEntry>, ids: &Vec<i32>) -> (r: Vec<BlacklistEntry>)
    ensures
        entries_view(r@) == without_ids(entries_view(v@), ids@),
{
    let mut r: Vec<BlacklistEntry> = Vec::new();
    let mut i: usize = 0;
    while i < v.len()
        invariant
            i <= v.len(),
            entries_view(r@) == without_ids(entries_view(v@.take(i as int)), ids@),
        decreases v.len() - i,
    {
        proof {
            lemma_take_succ(v@, i as int);
            lemma_entries_view_push(v@.take(i as int), v@[i as int]);
        }
        if !contains_id(ids, v[i].id) {
            let c = copy_entry(&v[i]);
            proof {
                lemma_entries_view_push(r@, c);
            }
            r.push(c);
        }
        i += 1;
    }
    proof {
        assert(v@.take(v.len() as int) =~= v@);
    }
    r
}

/// The ids of `ids` other than `id`, in their order.
pub fn ids_without(ids: &Vec<i32>, id: i32) -> (r: Vec<i32>)
    ensures
        r@ == without_value(ids@, id),
{
    let mut r: Vec<i32> = Vec::new();
    let mut i: usize = 0;
    while i < ids.len()
        invariant
            i <= ids.len(),
            r@ == without_value(ids@.take(i as int), id),
        decreases ids.len() - i,
    {
        proof {
            lemma_take_succ(ids@, i as int);
        }
        if ids[i] != id {
            r.push(ids[i]);
        }
        i += 1;
    }
    proof {
        assert(ids@.take(ids.len() as int) =~= ids@);
    }
    r
}

} // verus!
