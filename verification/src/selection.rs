//! The selection: the handles of the widgets that an editing step applies
//! to, in the order in which they were selected.

use vstd::prelude::*;
use crate::project::id_values;
use crate::widget::WidgetId;

verus! {

/// Index of the first of `ids` that is `id`, or the number of `ids` where
/// none is.
pub open spec fn first_index(ids: Seq<u64>, id: u64) -> int
    decreases ids.len(),
{
    if ids.len() == 0 {
        0
    } else if ids[0] == id {
        0
    } else {
        1 + first_index(ids.skip(1), id)
    }
}

/// The first index is an index of `id` where `id` is among `ids`, and no
/// index before it is.
pub proof fn lemma_first_index(ids: Seq<u64>, id: u64)
    ensures
        0 <= first_index(ids, id) <= ids.len(),
        forall|j: int| 0 <= j < first_index(ids, id) ==> ids[j] != id,
        first_index(ids, id) < ids.len() ==> ids[first_index(ids, id)] == id,
        ids.contains(id) <==> first_index(ids, id) < ids.len(),
    decreases ids.len(),
{
    if ids.len() > 0 && ids[0] != id {
        let rest = ids.skip(1);
        lemma_first_index(rest, id);
        assert forall|j: int| 0 <= j < first_index(ids, id) implies ids[j] != id by {
            if j > 0 {
                assert(rest[j - 1] == ids[j]);
            }
        }
        if first_index(ids, id) < ids.len() {
            assert(rest[first_index(rest, id)] == ids[first_index(ids, id)]);
        }
        if ids.contains(id) {
            let k = choose|k: int| 0 <= k < ids.len() && ids[k] == id;
            assert(rest[k - 1] == id);
        }
    } else if ids.len() > 0 {
        assert(ids[0] == id);
    }
}

/// The selection after `id` was toggled: without its first occurrence
/// where it was selected, with it at the end where it was not.
pub open spec fn toggled(ids: Seq<u64>, id: u64) -> Seq<u64> {
    if ids.contains(id) {
        ids.remove(first_index(ids, id))
    } else {
        ids.push(id)
    }
}

/// The selection after `id` was added: as it was where `id` was selected
/// already, with it at the end where it was not.
pub open spec fn added(ids: Seq<u64>, id: u64) -> Seq<u64> {
    if ids.contains(id) {
        ids
    } else {
        ids.push(id)
    }
}

/// The place of `id` in the selection: the index of its first occurrence.
pub fn position(selected: &Vec<WidgetId>, id: WidgetId) -> (place: Option<usize>)
    ensures
        match place {
            Some(i) => i < selected.len() && id_values(selected@).contains(id@) && i
                == first_index(id_values(selected@), id@),
            None => !id_values(selected@).contains(id@),
        },
{
    let ghost ids = id_values(selected@);
    let mut i: usize = 0;
    while i < selected.len()
        invariant
            i <= selected.len(),
            ids == id_values(selected@),
            forall|j: int| 0 <= j < i ==> ids[j] != id@,
        decreases selected.len() - i,
    {
        if selected[i].value() == id.value() {
            proof {
                assert(ids[i as int] == id@);
                lemma_first_index(ids, id@);
            }
            return Some(i);
        }
        i += 1;
    }
    None
}

/// Whether `id` is selected.
pub fn is_selected(selected: &Vec<WidgetId>, id: WidgetId) -> (found: bool)
    ensures
        found == id_values(selected@).contains(id@),
{
    position(selected, id).is_some()
}

/// Toggles `id`: takes it out of the selection where it is selected, and
/// puts it at the end where it is not.
pub fn toggle_selection(selected: &mut Vec<WidgetId>, id: WidgetId)
    ensures
        id_values(final(selected)@) == toggled(id_values(old(selected)@), id@),
{
    match position(selected, id) {
        Some(i) => {
            selected.remove(i);
            assert(id_values(selected@) =~= id_values(old(selected)@).remove(i as int));
        },
        None => {
            selected.push(id);
            assert(id_values(selected@) =~= id_values(old(selected)@).push(id@));
        },
    }
}

/// Adds `id` to the selection where it is not selected already.
pub fn add_to_selection(selected: &mut Vec<WidgetId>, id: WidgetId)
    ensures
        id_values(final(selected)@) == added(id_values(old(selected)@), id@),
{
    if !is_selected(selected, id) {
        selected.push(id);
        assert(id_values(selected@) =~= id_values(old(selected)@).push(id@));
    }
}

/// Toggling a handle leaves every other handle where it was: the handles
/// other than `id` are the same, in the same order, after the toggle. And
/// toggling a handle that was not selected twice gives the selection back.
pub proof fn lemma_toggle_keeps_the_others(ids: Seq<u64>, id: u64)
    ensures
        toggled(ids, id).filter(|other: u64| other != id) == ids.filter(|other: u64| other != id),
        !ids.contains(id) ==> toggled(toggled(ids, id), id) == ids,
{
    let others = |other: u64| other != id;
    lemma_first_index(ids, id);
    if !ids.contains(id) {
        ids.lemma_filter_push(id, others);
        let once = ids.push(id);
        lemma_first_index(once, id);
        assert(once[ids.len() as int] == id);
        assert(first_index(once, id) == ids.len()) by {
            if first_index(once, id) < ids.len() {
                assert(once[first_index(once, id)] == ids[first_index(once, id)]);
            }
        }
        assert(once.remove(ids.len() as int) =~= ids);
    } else {
        let at = first_index(ids, id);
        let before = ids.take(at);
        let after = ids.skip(at + 1);
        assert(ids =~= before + seq![id] + after);
        assert(ids.remove(at) =~= before + after);
        Seq::filter_distributes_over_add(before + seq![id], after, others);
        Seq::filter_distributes_over_add(before, seq![id], others);
        Seq::filter_distributes_over_add(before, after, others);
        assert(seq![id].filter(others) =~= Seq::<u64>::empty()) by {
            Seq::<u64>::empty().lemma_filter_push(id, others);
            assert(Seq::<u64>::empty().push(id) =~= seq![id]);
            assert(Seq::<u64>::empty().filter(others) =~= Seq::<u64>::empty());
        }
        assert(before.filter(others) + Seq::<u64>::empty() =~= before.filter(others));
    }
}

} // verus!
