//! The indicators: one module per node, and what they share: the instruments
//! of a node are kept by their identifiers, each identifier once.

use vstd::prelude::*;
use crate::text::str_equal;

pub mod mid_price;
pub mod resample_kline;
pub mod simple_kline;
pub mod total_volume;

verus! {

/// The characters of each identifier.
pub open spec fn id_views(ids: Seq<String>) -> Seq<Seq<char>> {
    Seq::new(ids.len(), |i: int| ids[i]@)
}

/// No identifier occurs twice.
pub open spec fn distinct(ids: Seq<Seq<char>>) -> bool {
    forall|i: int, j: int| 0 <= i < j < ids.len() ==> ids[i] != ids[j]
}

/// `ids` without the repetitions: each identifier where it first occurs.
pub open spec fn unique(ids: Seq<Seq<char>>) -> Seq<Seq<char>>
    decreases ids.len(),
{
    if ids.len() == 0 {
        Seq::empty()
    } else {
        let before = unique(ids.drop_last());
        if before.contains(ids.last()) {
            before
        } else {
            before.push(ids.last())
        }
    }
}

/// `unique` leaves no repetition.
pub proof fn lemma_unique(ids: Seq<Seq<char>>)
    ensures
        distinct(unique(ids)),
    decreases ids.len(),
{
    if ids.len() > 0 {
        let head = ids.drop_last();
        lemma_unique(head);
        let before = unique(head);
        if !before.contains(ids.last()) {
            assert forall|i: int, j: int| 0 <= i < j < unique(ids).len() implies unique(ids)[i]
                != unique(ids)[j] by {
                if j == before.len() {
                    assert(before[i] == unique(ids)[i]);
                    assert(before.contains(before[i]));
                } else {
                    assert(before[i] == unique(ids)[i] && before[j] == unique(ids)[j]);
                }
            }
        }
    }
}

/// A list without repetitions is its own `unique`.
pub proof fn lemma_unique_of_distinct(ids: Seq<Seq<char>>)
    requires
        distinct(ids),
    ensures
        unique(ids) == ids,
    decreases ids.len(),
{
    if ids.len() > 0 {
        let head = ids.drop_last();
        assert(distinct(head)) by {
            assert forall|i: int, j: int| 0 <= i < j < head.len() implies head[i] != head[j] by {
                assert(head[i] == ids[i] && head[j] == ids[j]);
            }
        }
        lemma_unique_of_distinct(head);
        if head.contains(ids.last()) {
            let k = choose|k: int| 0 <= k < head.len() && head[k] == ids.last();
            assert(ids[k] == ids[ids.len() - 1]);
        }
        assert(head.push(ids.last()) =~= ids);
    }
}

/// Position of the identifier `id` among `ids`, if it is there.
pub fn find_id(ids: &Vec<String>, id: &str) -> (r: Option<usize>)
    ensures
        match r {
            Some(i) => i < ids.len() && ids@[i as int]@ == id@,
            None => !id_views(ids@).contains(id@),
        },
{
    let mut i: usize = 0;
    while i < ids.len()
        invariant
            i <= ids.len(),
            forall|k: int| 0 <= k < i ==> (#[trigger] ids@[k])@ != id@,
        decreases ids.len() - i,
    {
        if str_equal(ids[i].as_str(), id) {
            return Some(i);
        }
        i += 1;
    }
    assert forall|k: int| 0 <= k < id_views(ids@).len() implies id_views(ids@)[k] != id@ by {
        assert(id_views(ids@)[k] == ids@[k]@);
    }
    None
}

/// The identifiers of `ids` without repetitions, each where it first
/// occurs.
pub fn unique_ids(ids: Vec<String>) -> (r: Vec<String>)
    ensures
        id_views(r@) == unique(id_views(ids@)),
        distinct(id_views(r@)),
{
    let mut out: Vec<String> = Vec::new();
    let mut i: usize = 0;
    assert(id_views(ids@).take(0) =~= Seq::<Seq<char>>::empty());
    assert(id_views(out@) =~= Seq::<Seq<char>>::empty());
    while i < ids.len()
        invariant
            i <= ids.len(),
            id_views(out@) == unique(id_views(ids@).take(i as int)),
        decreases ids.len() - i,
    {
        let ghost prefix = id_views(ids@).take(i + 1);
        assert(prefix.drop_last() =~= id_views(ids@).take(i as int));
        assert(prefix.last() == ids@[i as int]@);
        let known = find_id(&out, ids[i].as_str());
        if known.is_none() {
            let ghost before = id_views(out@);
            out.push(ids[i].clone());
            assert(id_views(out@) =~= before.push(ids@[i as int]@));
        } else {
            assert(id_views(out@)[known.unwrap() as int] == ids@[i as int]@);
        }
        i += 1;
    }
    assert(id_views(ids@).take(ids.len() as int) =~= id_views(ids@));
    proof {
        lemma_unique(id_views(ids@));
    }
    out
}

} // verus!
