//! Which envoy a request came from, so that the answer finds its way back.
use crate::text::same_text;
use vstd::prelude::*;

verus! {

/// The parent call of each request id; a later entry replaces an earlier one.
pub open spec fn parent_map(entries: Seq<(String, String)>) -> Map<Seq<char>, String>
    decreases entries.len(),
{
    if entries.len() == 0 {
        Map::empty()
    } else {
        parent_map(entries.drop_last()).insert(entries.last().0@, entries.last().1)
    }
}

/// The parent call of `id`.
pub open spec fn parent_of(parents: Map<Seq<char>, String>, id: Seq<char>) -> Option<String> {
    if parents.contains_key(id) {
        Some(parents[id])
    } else {
        None
    }
}

/// Records the parent call of a request.
pub fn record_parent(entries: &mut Vec<(String, String)>, id: String, parent: String)
    ensures
        parent_map(final(entries)@) == parent_map(old(entries)@).insert(id@, parent),
        final(entries)@ == old(entries)@.push((id, parent)),
{
    entries.push((id, parent));
    proof {
        assert(entries@.drop_last() =~= old(entries)@);
    }
}

/// The entries of other ids.
pub open spec fn without_id(entries: Seq<(String, String)>, id: Seq<char>) -> Seq<(String, String)>
    decreases entries.len(),
{
    if entries.len() == 0 {
        entries
    } else if entries.last().0@ == id {
        without_id(entries.drop_last(), id)
    } else {
        without_id(entries.drop_last(), id).push(entries.last())
    }
}

proof fn lemma_without_id(entries: Seq<(String, String)>, id: Seq<char>)
    ensures
        parent_map(without_id(entries, id)) == parent_map(entries).remove(id),
    decreases entries.len(),
{
    if entries.len() > 0 {
        let rest = entries.drop_last();
        lemma_without_id(rest, id);
        if entries.last().0@ == id {
            assert(parent_map(entries).remove(id) =~= parent_map(rest).remove(id));
        } else {
            let kept = without_id(rest, id).push(entries.last());
            assert(kept.drop_last() =~= without_id(rest, id));
            assert(parent_map(kept) =~= parent_map(entries).remove(id));
        }
    } else {
        assert(parent_map(entries).remove(id) =~= parent_map(entries));
    }
}

/// Takes the parent call of `id` out of the table.
pub fn take_parent(entries: &mut Vec<(String, String)>, id: &str) -> (parent: Option<String>)
    ensures
        parent == parent_of(parent_map(old(entries)@), id@),
        parent_map(final(entries)@) == parent_map(old(entries)@).remove(id@),
        final(entries)@ == without_id(old(entries)@, id@),
{
    let mut left: Vec<(String, String)> = Vec::new();
    let mut parent: Option<String> = None;
    let count: usize = entries.len();
    let mut i: usize = 0;
    while i < count
        invariant
            i <= count,
            count == entries@.len(),
            entries@ == old(entries)@,
            left@ == without_id(entries@.take(i as int), id@),
            parent == parent_of(parent_map(entries@.take(i as int)), id@),
        decreases count - i,
    {
        proof {
            assert(entries@.take(i + 1).drop_last() =~= entries@.take(i as int));
        }
        if same_text(entries[i].0.as_str(), id) {
            parent = Some(entries[i].1.clone());
        } else {
            left.push((entries[i].0.clone(), entries[i].1.clone()));
        }
        i += 1;
    }
    proof {
        assert(entries@.take(count as int) =~= entries@);
        lemma_without_id(entries@, id@);
    }
    *entries = left;
    parent
}

} // verus!
