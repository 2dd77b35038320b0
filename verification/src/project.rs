//! The document that the designer edits.

use vstd::prelude::*;
use crate::widget::{
    DockArea, Point, Size, Widget, WidgetId, WidgetKind, WidgetView, created, moved, pasted,
};

verus! {

/// A design: its widgets, the size of its canvas, and which of the four
/// panels round the canvas are shown.
///
/// The order of the widgets counts: the generated program builds the
/// widgets of one docking area in this order.
#[derive(Clone, Debug, PartialEq, Eq)]
pub struct Project {
    pub widgets: Vec<Widget>,
    pub canvas_size: Size,
    pub panel_top_enabled: bool,
    pub panel_bottom_enabled: bool,
    pub panel_left_enabled: bool,
    pub panel_right_enabled: bool,
}

/// What a [`Project`] holds.
pub ghost struct ProjectView {
    pub widgets: Seq<WidgetView>,
    pub canvas_size: Size,
    pub panel_top_enabled: bool,
    pub panel_bottom_enabled: bool,
    pub panel_left_enabled: bool,
    pub panel_right_enabled: bool,
}

/// The views of a list of widgets.
pub open spec fn widget_views(widgets: Seq<Widget>) -> Seq<WidgetView> {
    widgets.map_values(|w: Widget| w@)
}

impl View for Project {
    type V = ProjectView;

    open spec fn view(&self) -> ProjectView {
        ProjectView {
            widgets: widget_views(self.widgets@),
            canvas_size: self.canvas_size,
            panel_top_enabled: self.panel_top_enabled,
            panel_bottom_enabled: self.panel_bottom_enabled,
            panel_left_enabled: self.panel_left_enabled,
            panel_right_enabled: self.panel_right_enabled,
        }
    }
}

/// Whether no two of the widgets have the same handle.
pub open spec fn ids_distinct(widgets: Seq<WidgetView>) -> bool {
    forall|i: int, j: int| 0 <= i < j < widgets.len() ==> widgets[i].id != widgets[j].id
}

/// Whether the handle of every widget lies below `bound`.
pub open spec fn ids_below(widgets: Seq<WidgetView>, bound: u64) -> bool {
    forall|i: int| 0 <= i < widgets.len() ==> (#[trigger] widgets[i]).id < bound
}

/// The greatest handle among the widgets, 0 where there are none.
pub open spec fn max_id(widgets: Seq<WidgetView>) -> u64
    decreases widgets.len(),
{
    if widgets.len() == 0 {
        0
    } else {
        let before = max_id(widgets.drop_last());
        if widgets.last().id > before {
            widgets.last().id
        } else {
            before
        }
    }
}

/// No handle among the widgets is greater than the greatest.
pub proof fn lemma_max_id_bounds(widgets: Seq<WidgetView>)
    ensures
        forall|i: int| 0 <= i < widgets.len() ==> (#[trigger] widgets[i]).id <= max_id(widgets),
    decreases widgets.len(),
{
    if widgets.len() > 0 {
        lemma_max_id_bounds(widgets.drop_last());
        assert forall|i: int| 0 <= i < widgets.len() implies (#[trigger] widgets[i]).id <= max_id(
            widgets,
        ) by {
            if i < widgets.len() - 1 {
                assert(widgets.drop_last()[i] == widgets[i]);
            }
        }
    }
}

/// Where the handles of a project are distinct and lie below the next
/// handle, they still are distinct after a widget with the next handle is
/// added, and lie below the handle after it.
pub proof fn lemma_new_handle_is_fresh(widgets: Seq<WidgetView>, w: WidgetView)
    requires
        ids_distinct(widgets),
        ids_below(widgets, w.id),
        w.id < u64::MAX,
    ensures
        ids_distinct(widgets.push(w)),
        ids_below(widgets.push(w), (w.id + 1) as u64),
{
}

/// The numbers behind a list of handles.
pub open spec fn id_values(ids: Seq<WidgetId>) -> Seq<u64> {
    ids.map_values(|id: WidgetId| id@)
}

/// The widgets that stay when those with one of the handles `gone` are
/// removed, in their order.
pub open spec fn without(widgets: Seq<WidgetView>, gone: Seq<u64>) -> Seq<WidgetView> {
    widgets.filter(|w: WidgetView| !gone.contains(w.id))
}

/// Removing widgets leaves the handles of the others as they were: still
/// distinct, and still below the bound that they were below.
pub proof fn lemma_removal_keeps_handles(widgets: Seq<WidgetView>, gone: Seq<u64>, bound: u64)
    ensures
        ids_distinct(widgets) ==> ids_distinct(without(widgets, gone)),
        ids_below(widgets, bound) ==> ids_below(without(widgets, gone), bound),
        forall|i: int|
            0 <= i < without(widgets, gone).len() ==> widgets.contains(
                #[trigger] without(widgets, gone)[i],
            ),
    decreases widgets.len(),
{
    let stays = |w: WidgetView| !gone.contains(w.id);
    if widgets.len() > 0 {
        let before = widgets.drop_last();
        let last = widgets.last();
        lemma_removal_keeps_handles(before, gone, bound);
        assert(before.push(last) =~= widgets);
        before.lemma_filter_push(last, stays);
        let kept = without(before, gone);
        assert forall|i: int| 0 <= i < kept.len() implies widgets.contains(#[trigger] kept[i]) by {
            let j = choose|j: int| 0 <= j < before.len() && before[j] == kept[i];
            assert(widgets[j] == kept[i]);
        }
        assert(widgets.contains(last)) by {
            assert(widgets[widgets.len() - 1] == last);
        }
        if ids_distinct(widgets) {
            assert(ids_distinct(before)) by {
                assert forall|i: int, j: int| 0 <= i < j < before.len() implies before[i].id
                    != before[j].id by {
                    assert(before[i] == widgets[i] && before[j] == widgets[j]);
                }
            }
            assert forall|i: int| 0 <= i < kept.len() implies (#[trigger] kept[i]).id
                != last.id by {
                let j = choose|j: int| 0 <= j < before.len() && before[j] == kept[i];
                assert(widgets[j] == kept[i]);
            }
        }
        if ids_below(widgets, bound) {
            assert(ids_below(before, bound)) by {
                assert forall|i: int| 0 <= i < before.len() implies (#[trigger] before[i]).id
                    < bound by {
                    assert(before[i] == widgets[i]);
                }
            }
        }
    } else {
        assert(without(widgets, gone) =~= Seq::<WidgetView>::empty());
    }
}

/// The source of the handles of a session: it hands them out in increasing
/// order, each once.
pub struct IdSource {
    next: u64,
}

impl View for IdSource {
    type V = u64;

    /// The handle that is handed out next.
    closed spec fn view(&self) -> u64 {
        self.next
    }
}

impl IdSource {
    /// A source whose first handle is 1.
    pub fn new() -> (ids: Self)
        ensures
            ids@ == 1,
    {
        IdSource { next: 1 }
    }

    /// The handle that is handed out next.
    pub fn peek(&self) -> (next: u64)
        ensures
            next == self@,
    {
        self.next
    }

    /// Whether a handle is left to hand out.
    pub fn has_next(&self) -> (b: bool)
        ensures
            b == (self@ < u64::MAX),
    {
        self.next < u64::MAX
    }

    /// Hands out the next handle. Every handle handed out later is greater.
    pub fn allocate(&mut self) -> (id: WidgetId)
        requires
            old(self)@ < u64::MAX,
        ensures
            id@ == old(self)@,
            final(self)@ == old(self)@ + 1,
    {
        let id = WidgetId::new(self.next);
        self.next = self.next + 1;
        id
    }

    /// Goes on after the widgets of a project that was opened: the next
    /// handle is the one after the greatest of the project. A project
    /// without widgets leaves the source as it is.
    pub fn resume_after(&mut self, project: &Project)
        ensures
            project@.widgets.len() == 0 ==> final(self)@ == old(self)@,
            project@.widgets.len() > 0 && max_id(project@.widgets) < u64::MAX ==> final(self)@
                == max_id(project@.widgets) + 1 && ids_below(project@.widgets, final(self)@),
            project@.widgets.len() > 0 && max_id(project@.widgets) == u64::MAX ==> final(self)@
                == u64::MAX,
    {
        if project.widgets.len() > 0 {
            let greatest: u64 = project.greatest_id();
            proof {
                lemma_max_id_bounds(project@.widgets);
            }
            self.next = if greatest < u64::MAX {
                greatest + 1
            } else {
                u64::MAX
            };
        }
    }
}

/// Whether `id` is one of `ids`.
pub fn listed(ids: &[WidgetId], id: WidgetId) -> (found: bool)
    ensures
        found == id_values(ids@).contains(id@),
{
    let mut i: usize = 0;
    while i < ids.len()
        invariant
            i <= ids.len(),
            forall|j: int| 0 <= j < i ==> id_values(ids@)[j] != id@,
        decreases ids.len() - i,
    {
        if ids[i].value() == id.value() {
            assert(id_values(ids@)[i as int] == id@);
            return true;
        }
        i += 1;
    }
    false
}

impl Project {
    /// A project without widgets, with a canvas of the given size and none
    /// of the four panels shown.
    pub fn new(canvas_size: Size) -> (project: Project)
        ensures
            project@ == (ProjectView {
                widgets: Seq::empty(),
                canvas_size,
                panel_top_enabled: false,
                panel_bottom_enabled: false,
                panel_left_enabled: false,
                panel_right_enabled: false,
            }),
    {
        let project = Project {
            widgets: Vec::new(),
            canvas_size,
            panel_top_enabled: false,
            panel_bottom_enabled: false,
            panel_left_enabled: false,
            panel_right_enabled: false,
        };
        assert(project@.widgets =~= Seq::<WidgetView>::empty());
        project
    }

    /// The greatest handle among the widgets, 0 where there are none.
    pub fn greatest_id(&self) -> (greatest: u64)
        ensures
            greatest == max_id(self@.widgets),
    {
        let ghost all = self@.widgets;
        let mut greatest: u64 = 0;
        let mut i: usize = 0;
        while i < self.widgets.len()
            invariant
                i <= self.widgets.len(),
                all == widget_views(self.widgets@),
                greatest == max_id(all.take(i as int)),
            decreases self.widgets.len() - i,
        {
            assert(all.take(i + 1).drop_last() =~= all.take(i as int));
            let id: u64 = self.widgets[i].id.value();
            if id > greatest {
                greatest = id;
            }
            i += 1;
        }
        assert(all.take(self.widgets.len() as int) =~= all);
        greatest
    }

    /// Removes the widgets that have one of the handles `gone`. The others
    /// stay in their order, with their handles: no handle becomes free.
    pub fn remove(&mut self, gone: &[WidgetId])
        ensures
            final(self)@ == (ProjectView {
                widgets: without(old(self)@.widgets, id_values(gone@)),
                ..old(self)@
            }),
            ids_distinct(old(self)@.widgets) ==> ids_distinct(final(self)@.widgets),
            forall|bound: u64|
                ids_below(old(self)@.widgets, bound) ==> ids_below(final(self)@.widgets, bound),
    {
        let ghost start = self@.widgets;
        let ghost stays = |w: WidgetView| !id_values(gone@).contains(w.id);
        let ghost mut seen: int = 0;
        let mut i: usize = 0;
        assert(start.take(0).filter(stays) =~= Seq::<WidgetView>::empty());
        assert(start.skip(0) =~= start);
        assert(Seq::<WidgetView>::empty() + start =~= start);
        while i < self.widgets.len()
            invariant
                0 <= seen <= start.len(),
                i <= self.widgets.len(),
                stays == (|w: WidgetView| !id_values(gone@).contains(w.id)),
                widget_views(self.widgets@) == start.take(seen).filter(stays) + start.skip(seen),
                i == start.take(seen).filter(stays).len(),
                self.canvas_size == old(self).canvas_size,
                self.panel_top_enabled == old(self).panel_top_enabled,
                self.panel_bottom_enabled == old(self).panel_bottom_enabled,
                self.panel_left_enabled == old(self).panel_left_enabled,
                self.panel_right_enabled == old(self).panel_right_enabled,
            decreases start.len() - seen,
        {
            let ghost kept = start.take(seen).filter(stays);
            let ghost now = self.widgets@;
            proof {
                assert(seen < start.len());
                assert(widget_views(now)[i as int] == start.skip(seen)[0]);
                start.lemma_take_succ_push(seen);
                start.take(seen).lemma_filter_push(start[seen], stays);
            }
            if listed(gone, self.widgets[i].id) {
                self.widgets.remove(i);
                assert(self.widgets@ == now.remove(i as int));
                assert(widget_views(now.remove(i as int)) =~= widget_views(now).remove(i as int));
                assert((kept + start.skip(seen)).remove(i as int) =~= kept + start.skip(seen + 1));
            } else {
                assert(widget_views(self.widgets@) =~= kept.push(start[seen]) + start.skip(
                    seen + 1,
                ));
                i += 1;
            }
            proof {
                seen = seen + 1;
            }
        }
        proof {
            assert(start.skip(seen).len() == 0);
            assert(start.take(seen) =~= start);
            assert(widget_views(self.widgets@) =~= start.filter(stays));
            lemma_removal_keeps_handles(start, id_values(gone@), 0);
            assert forall|bound: u64| ids_below(start, bound) implies ids_below(
                without(start, id_values(gone@)),
                bound,
            ) by {
                lemma_removal_keeps_handles(start, id_values(gone@), bound);
            }
        }
    }

    /// Pastes a copy of `source`: the copy gets the next handle and the last
    /// place in the order of the project, and stands a little right of and
    /// below its source. Handles that were distinct and below the next
    /// handle before are so after.
    pub fn paste(&mut self, ids: &mut IdSource, source: &Widget) -> (id: WidgetId)
        requires
            old(ids)@ < u64::MAX,
        ensures
            id@ == old(ids)@,
            final(ids)@ == old(ids)@ + 1,
            final(self)@ == (ProjectView {
                widgets: old(self)@.widgets.push(pasted(source@, id@)),
                ..old(self)@
            }),
            ids_distinct(old(self)@.widgets) && ids_below(old(self)@.widgets, old(ids)@)
                ==> ids_distinct(final(self)@.widgets) && ids_below(
                final(self)@.widgets,
                final(ids)@,
            ),
    {
        let id = ids.allocate();
        let mut w = source.duplicate();
        w.id = id;
        w.z = id.as_z();
        w.pos = Point { x: moved(source.pos.x), y: moved(source.pos.y) };
        proof {
            if ids_distinct(old(self)@.widgets) && ids_below(old(self)@.widgets, old(ids)@) {
                lemma_new_handle_is_fresh(old(self)@.widgets, w@);
            }
        }
        self.widgets.push(w);
        assert(widget_views(self.widgets@) =~= old(self)@.widgets.push(w@));
        id
    }

    /// Places a new widget: it gets the next handle, the size and the
    /// properties of its kind from the catalogue, and the last place in
    /// the order of the project. Handles that were distinct and below the
    /// next handle before are so after.
    pub fn place(
        &mut self,
        ids: &mut IdSource,
        kind: WidgetKind,
        pos: Point,
        area: DockArea,
    ) -> (id: WidgetId)
        requires
            old(ids)@ < u64::MAX,
        ensures
            id@ == old(ids)@,
            final(ids)@ == old(ids)@ + 1,
            final(self)@ == (ProjectView {
                widgets: old(self)@.widgets.push(created(id@, kind, pos, area)),
                ..old(self)@
            }),
            ids_distinct(old(self)@.widgets) && ids_below(old(self)@.widgets, old(ids)@)
                ==> ids_distinct(final(self)@.widgets) && ids_below(
                final(self)@.widgets,
                final(ids)@,
            ),
    {
        let id = ids.allocate();
        let w = Widget::create(id, kind, pos, area);
        proof {
            if ids_distinct(old(self)@.widgets) && ids_below(old(self)@.widgets, old(ids)@) {
                lemma_new_handle_is_fresh(old(self)@.widgets, w@);
            }
        }
        self.widgets.push(w);
        assert(widget_views(self.widgets@) =~= old(self)@.widgets.push(w@));
        id
    }
}

} // verus!
