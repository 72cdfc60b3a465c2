//! Lookups by id in the id/value lists the services assemble their answers
//! from. A list built from query results may name an id twice; the later
//! pair wins, as it does when such a list is collected into a map.

use vstd::prelude::*;

verus! {

/// The position of the last pair in `ids` whose id is `id`.
pub open spec fn last_index_of(ids: Seq<i32>, id: i32) -> Option<int>
    decreases ids.len(),
{
    if ids.len() == 0 {
        None
    } else if ids.last() == id {
        Some(ids.len() - 1)
    } else {
        last_index_of(ids.drop_last(), id)
    }
}

/// `last_index_of` finds the last occurrence, or reports that there is none.
pub proof fn lemma_last_index_of(ids: Seq<i32>, id: i32)
    ensures
        match last_index_of(ids, id) {
            Some(k) => 0 <= k < ids.len() && ids[k] == id && forall|j: int|
                k < j < ids.len() ==> ids[j] != id,
            None => forall|j: int| 0 <= j < ids.len() ==> ids[j] != id,
        },
    decreases ids.len(),
{
    if ids.len() > 0 && ids.last() != id {
        lemma_last_index_of(ids.drop_last(), id);
        match last_index_of(ids.drop_last(), id) {
            Some(k) => {
                assert forall|j: int| k < j < ids.len() implies ids[j] != id by {
                    if j < ids.len() - 1 {
                        assert(ids[j] == ids.drop_last()[j]);
                    }
                }
            },
            None => {
                assert forall|j: int| 0 <= j < ids.len() implies ids[j] != id by {
                    if j < ids.len() - 1 {
                        assert(ids[j] == ids.drop_last()[j]);
                    }
                }
            },
        }
    }
}

/// The ids of a list of id/name pairs.
pub open spec fn pair_ids(pairs: Seq<(i32, String)>) -> Seq<i32> {
    pairs.map_values(|p: (i32, String)| p.0)
}

/// The name paired with `id` (the last such pair), or the empty name.
pub open spec fn name_for(pairs: Seq<(i32, String)>, id: i32) -> Seq<char> {
    match last_index_of(pair_ids(pairs), id) {
        Some(k) => pairs[k].1@,
        None => Seq::empty(),
    }
}

/// The name paired with `id` (the last such pair), if any.
pub open spec fn opt_name_for(pairs: Seq<(i32, String)>, id: i32) -> Option<Seq<char>> {
    match last_index_of(pair_ids(pairs), id) {
        Some(k) => Some(pairs[k].1@),
        None => None,
    }
}

/// The position of the last element of `ids` equal to `id`.
pub fn find_last(ids: &Vec<i32>, id: i32) -> (r: Option<usize>)
    ensures
        match r {
            Some(k) => last_index_of(ids@, id) == Some(k as int),
            None => last_index_of(ids@, id) == None::<int>,
        },
        r matches Some(k) ==> k < ids@.len(),
{
    let mut i = ids.len();
    assert(ids@.take(i as int) =~= ids@);
    while i > 0
        invariant
            i <= ids@.len(),
            last_index_of(ids@, id) == last_index_of(ids@.take(i as int), id),
        decreases i,
    {
        let ghost t = ids@.take(i as int);
        assert(t.drop_last() =~= ids@.take(i as int - 1));
        if ids[i - 1] == id {
            return Some(i - 1);
        }
        i -= 1;
    }
    assert(ids@.take(0) =~= Seq::<i32>::empty());
    None
}

/// The position of the last pair whose id is `id`.
pub fn find_pair(pairs: &Vec<(i32, String)>, id: i32) -> (r: Option<usize>)
    ensures
        match r {
            Some(k) => last_index_of(pair_ids(pairs@), id) == Some(k as int),
            None => last_index_of(pair_ids(pairs@), id) == None::<int>,
        },
        r matches Some(k) ==> k < pairs@.len(),
{
    let mut ids: Vec<i32> = Vec::new();
    let mut j: usize = 0;
    while j < pairs.len()
        invariant
            j <= pairs@.len(),
            ids@ == pair_ids(pairs@.take(j as int)),
        decreases pairs@.len() - j,
    {
        ids.push(pairs[j].0);
        assert(pair_ids(pairs@.take(j as int + 1)) =~= pair_ids(pairs@.take(j as int)).push(
            pairs@[j as int].0,
        ));
        j += 1;
    }
    assert(pairs@.take(j as int) =~= pairs@);
    find_last(&ids, id)
}

/// The name paired with `id`, or the empty name: what `map.get(&id).cloned()
/// .unwrap_or_default()` gives for a map collected from `pairs`.
pub fn name_or_default(pairs: &Vec<(i32, String)>, id: i32) -> (n: String)
    ensures
        n@ == name_for(pairs@, id),
{
    match find_pair(pairs, id) {
        Some(k) => pairs[k].1.clone(),
        None => String::new(),
    }
}

/// The name paired with `id`, if any.
pub fn name_if_any(pairs: &Vec<(i32, String)>, id: i32) -> (n: Option<String>)
    ensures
        match n {
            Some(s) => opt_name_for(pairs@, id) == Some(s@),
            None => opt_name_for(pairs@, id) == None::<Seq<char>>,
        },
{
    match find_pair(pairs, id) {
        Some(k) => Some(pairs[k].1.clone()),
        None => None,
    }
}

} // verus!
