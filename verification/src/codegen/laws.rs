//! What holds of every generated text.

use vstd::prelude::*;
use crate::codegen::passages::{CENTRAL_CLOSE, PANEL_CLOSE, RENDER_OPEN};
use crate::codegen::render::widget_block_text;
use crate::codegen::state::{state_field_text, state_init_text};
use crate::codegen::{
    CodeGenFormat, area_text, canvas_origin_text, central_head_text, central_text, docked,
    generated_text, panel_head_text, panel_origin_text, panel_text, routine_text,
};
use crate::project::{Project, ProjectView};
use crate::widget::{DockArea, PropsView, WidgetView, clamped_selection};

verus! {

/// Every widget is docked to one area and to no other: the six areas
/// together hold as many widgets as the project, so the routine builds
/// each widget once.
pub proof fn lemma_every_widget_is_docked_once(widgets: Seq<WidgetView>)
    ensures
        docked(widgets, DockArea::Top).len() + docked(widgets, DockArea::Bottom).len() + docked(
            widgets,
            DockArea::Left,
        ).len() + docked(widgets, DockArea::Right).len() + docked(widgets, DockArea::Center).len()
            + docked(widgets, DockArea::Free).len() == widgets.len(),
    decreases widgets.len(),
{
    if widgets.len() > 0 {
        let before = widgets.drop_last();
        let last = widgets.last();
        lemma_every_widget_is_docked_once(before);
        assert(before.push(last) =~= widgets);
        before.lemma_filter_push(last, |w: WidgetView| w.area == DockArea::Top);
        before.lemma_filter_push(last, |w: WidgetView| w.area == DockArea::Bottom);
        before.lemma_filter_push(last, |w: WidgetView| w.area == DockArea::Left);
        before.lemma_filter_push(last, |w: WidgetView| w.area == DockArea::Right);
        before.lemma_filter_push(last, |w: WidgetView| w.area == DockArea::Center);
        before.lemma_filter_push(last, |w: WidgetView| w.area == DockArea::Free);
    } else {
        assert(docked(widgets, DockArea::Top) =~= Seq::<WidgetView>::empty());
        assert(docked(widgets, DockArea::Bottom) =~= Seq::<WidgetView>::empty());
        assert(docked(widgets, DockArea::Left) =~= Seq::<WidgetView>::empty());
        assert(docked(widgets, DockArea::Right) =~= Seq::<WidgetView>::empty());
        assert(docked(widgets, DockArea::Center) =~= Seq::<WidgetView>::empty());
        assert(docked(widgets, DockArea::Free) =~= Seq::<WidgetView>::empty());
    }
}

/// The widgets of an area stand in the order of the project, whatever
/// their handles and z-values: of two widgets that are docked to the area,
/// the one that comes first in the area comes first in the project.
pub proof fn lemma_docked_keeps_project_order(
    widgets: Seq<WidgetView>,
    area: DockArea,
    i: int,
    j: int,
)
    requires
        0 <= i < j < docked(widgets, area).len(),
    ensures
        exists|p: int, q: int|
            0 <= p < q < widgets.len() && widgets[p] == docked(widgets, area)[i] && widgets[q]
                == docked(widgets, area)[j],
    decreases widgets.len(),
{
    let here = |w: WidgetView| w.area == area;
    if widgets.len() == 0 {
        assert(docked(widgets, area) =~= Seq::<WidgetView>::empty());
    } else {
        let before = widgets.drop_last();
        let last = widgets.last();
        assert(before.push(last) =~= widgets);
        before.lemma_filter_push(last, here);
        let kept = docked(before, area);
        if j < kept.len() {
            lemma_docked_keeps_project_order(before, area, i, j);
            let (p, q) = choose|p: int, q: int|
                0 <= p < q < before.len() && before[p] == kept[i] && before[q] == kept[j];
            assert(widgets[p] == before[p] && widgets[q] == before[q]);
        } else {
            lemma_docked_is_in_project(before, area, i);
            let p = choose|p: int| 0 <= p < before.len() && before[p] == kept[i];
            let q = widgets.len() - 1;
            assert(widgets[p] == before[p]);
            assert(widgets[q] == docked(widgets, area)[j]);
        }
    }
}

/// Every widget of an area is a widget of the project.
pub proof fn lemma_docked_is_in_project(widgets: Seq<WidgetView>, area: DockArea, i: int)
    requires
        0 <= i < docked(widgets, area).len(),
    ensures
        exists|p: int| 0 <= p < widgets.len() && widgets[p] == docked(widgets, area)[i],
        docked(widgets, area)[i].area == area,
    decreases widgets.len(),
{
    let here = |w: WidgetView| w.area == area;
    if widgets.len() == 0 {
        assert(docked(widgets, area) =~= Seq::<WidgetView>::empty());
    } else {
        let before = widgets.drop_last();
        let last = widgets.last();
        assert(before.push(last) =~= widgets);
        before.lemma_filter_push(last, here);
        let kept = docked(before, area);
        if i < kept.len() {
            lemma_docked_is_in_project(before, area, i);
            let p = choose|p: int| 0 <= p < before.len() && before[p] == kept[i];
            assert(widgets[p] == before[p]);
        } else {
            assert(widgets[widgets.len() - 1] == docked(widgets, area)[i]);
        }
    }
}

/// The origin that the widgets of an area are placed from.
pub open spec fn origin_text(area: DockArea) -> Seq<char> {
    match area {
        DockArea::Top | DockArea::Bottom | DockArea::Left | DockArea::Right => panel_origin_text(),
        DockArea::Center | DockArea::Free => canvas_origin_text(),
    }
}

/// The place of an area in the fixed order in which the routine builds
/// the areas.
pub open spec fn area_rank(area: DockArea) -> nat {
    match area {
        DockArea::Top => 0,
        DockArea::Bottom => 1,
        DockArea::Left => 2,
        DockArea::Right => 3,
        DockArea::Center => 4,
        DockArea::Free => 5,
    }
}

/// The text of the routine before the code of an area: the text up to the
/// end of the code of the area before it, and what stands between the two.
pub open spec fn text_before(p: ProjectView, area: DockArea) -> Seq<char>
    decreases area_rank(area), 0nat,
{
    match area {
        DockArea::Top => RENDER_OPEN@ + panel_head_text(DockArea::Top),
        DockArea::Bottom => text_through(p, DockArea::Top) + PANEL_CLOSE@ + panel_head_text(
            DockArea::Bottom,
        ),
        DockArea::Left => text_through(p, DockArea::Bottom) + PANEL_CLOSE@ + panel_head_text(
            DockArea::Left,
        ),
        DockArea::Right => text_through(p, DockArea::Left) + PANEL_CLOSE@ + panel_head_text(
            DockArea::Right,
        ),
        DockArea::Center => text_through(p, DockArea::Right) + PANEL_CLOSE@ + central_head_text(p),
        DockArea::Free => text_through(p, DockArea::Center),
    }
}

/// The text of the routine up to the end of the code of an area.
pub open spec fn text_through(p: ProjectView, area: DockArea) -> Seq<char>
    decreases area_rank(area), 1nat,
{
    text_before(p, area) + area_text(p.widgets, area, origin_text(area))
}

proof fn lemma_prefix_of_sum(a: Seq<char>, b: Seq<char>)
    ensures
        a.is_prefix_of(a + b),
{
    assert(a =~= (a + b).subrange(0, a.len() as int));
}

proof fn lemma_prefix_of_sum_of_three(a: Seq<char>, b: Seq<char>, c: Seq<char>)
    ensures
        a.is_prefix_of(a + b + c),
{
    assert(a =~= (a + b + c).subrange(0, a.len() as int));
}

proof fn lemma_prefix_chain(a: Seq<char>, b: Seq<char>, c: Seq<char>)
    requires
        a.is_prefix_of(b),
        b.is_prefix_of(c),
    ensures
        a.is_prefix_of(c),
{
    assert(a =~= c.subrange(0, a.len() as int));
}

proof fn lemma_concat_four(a: Seq<char>, b: Seq<char>, c: Seq<char>, d: Seq<char>)
    ensures
        a + (b + c + d) == a + b + c + d,
{
    assert(a + (b + c + d) =~= a + b + c + d);
}

proof fn lemma_after_top(p: ProjectView)
    ensures
        RENDER_OPEN@ + panel_text(p.widgets, DockArea::Top) == text_through(p, DockArea::Top)
            + PANEL_CLOSE@,
{
    lemma_concat_four(
        RENDER_OPEN@,
        panel_head_text(DockArea::Top),
        area_text(p.widgets, DockArea::Top, panel_origin_text()),
        PANEL_CLOSE@,
    );
}

proof fn lemma_after_bottom(p: ProjectView)
    ensures
        text_through(p, DockArea::Top) + PANEL_CLOSE@ + panel_text(p.widgets, DockArea::Bottom)
            == text_through(p, DockArea::Bottom) + PANEL_CLOSE@,
{
    lemma_concat_four(
        text_through(p, DockArea::Top) + PANEL_CLOSE@,
        panel_head_text(DockArea::Bottom),
        area_text(p.widgets, DockArea::Bottom, panel_origin_text()),
        PANEL_CLOSE@,
    );
}

proof fn lemma_after_left(p: ProjectView)
    ensures
        text_through(p, DockArea::Bottom) + PANEL_CLOSE@ + panel_text(p.widgets, DockArea::Left)
            == text_through(p, DockArea::Left) + PANEL_CLOSE@,
{
    lemma_concat_four(
        text_through(p, DockArea::Bottom) + PANEL_CLOSE@,
        panel_head_text(DockArea::Left),
        area_text(p.widgets, DockArea::Left, panel_origin_text()),
        PANEL_CLOSE@,
    );
}

proof fn lemma_after_right(p: ProjectView)
    ensures
        text_through(p, DockArea::Left) + PANEL_CLOSE@ + panel_text(p.widgets, DockArea::Right)
            == text_through(p, DockArea::Right) + PANEL_CLOSE@,
{
    lemma_concat_four(
        text_through(p, DockArea::Left) + PANEL_CLOSE@,
        panel_head_text(DockArea::Right),
        area_text(p.widgets, DockArea::Right, panel_origin_text()),
        PANEL_CLOSE@,
    );
}

proof fn lemma_concat_five(a: Seq<char>, b: Seq<char>, c: Seq<char>, d: Seq<char>, e: Seq<char>)
    ensures
        a + (b + c + d + e) == a + b + c + d + e,
{
    assert(a + (b + c + d + e) =~= a + b + c + d + e);
}

proof fn lemma_after_free(p: ProjectView)
    ensures
        text_through(p, DockArea::Right) + PANEL_CLOSE@ + central_text(p) == text_through(
            p,
            DockArea::Free,
        ) + CENTRAL_CLOSE@,
{
    let center = area_text(p.widgets, DockArea::Center, canvas_origin_text());
    let free = area_text(p.widgets, DockArea::Free, canvas_origin_text());
    assert(text_before(p, DockArea::Center) == text_through(p, DockArea::Right) + PANEL_CLOSE@
        + central_head_text(p));
    assert(text_through(p, DockArea::Center) == text_before(p, DockArea::Center) + center);
    assert(text_before(p, DockArea::Free) == text_through(p, DockArea::Center));
    assert(text_through(p, DockArea::Free) == text_before(p, DockArea::Free) + free);
    lemma_concat_five(
        text_through(p, DockArea::Right) + PANEL_CLOSE@,
        central_head_text(p),
        center,
        free,
        CENTRAL_CLOSE@,
    );
}

proof fn lemma_routine_ends_after_free(p: ProjectView)
    ensures
        text_through(p, DockArea::Free).is_prefix_of(routine_text(p)),
{
    lemma_after_top(p);
    lemma_after_bottom(p);
    lemma_after_left(p);
    lemma_after_right(p);
    lemma_after_free(p);
    let through_free = text_through(p, DockArea::Free);
    assert(routine_text(p) == through_free + CENTRAL_CLOSE@ + "}\n"@);
    lemma_prefix_of_sum_of_three(through_free, CENTRAL_CLOSE@, "}\n"@);
}

/// The area that the routine builds after `area`; the last area stands for
/// itself.
pub open spec fn next_area(area: DockArea) -> DockArea {
    match area {
        DockArea::Top => DockArea::Bottom,
        DockArea::Bottom => DockArea::Left,
        DockArea::Left => DockArea::Right,
        DockArea::Right => DockArea::Center,
        DockArea::Center | DockArea::Free => DockArea::Free,
    }
}

/// The code of an area ends before the code of the next area begins.
pub proof fn lemma_next_area_comes_after(p: ProjectView, area: DockArea)
    requires
        area != DockArea::Free,
    ensures
        text_through(p, area).is_prefix_of(text_before(p, next_area(area))),
{
    let through = text_through(p, area);
    match area {
        DockArea::Top => {
            lemma_prefix_of_sum_of_three(through, PANEL_CLOSE@, panel_head_text(DockArea::Bottom));
        },
        DockArea::Bottom => {
            lemma_prefix_of_sum_of_three(through, PANEL_CLOSE@, panel_head_text(DockArea::Left));
        },
        DockArea::Left => {
            lemma_prefix_of_sum_of_three(through, PANEL_CLOSE@, panel_head_text(DockArea::Right));
        },
        DockArea::Right => {
            lemma_prefix_of_sum_of_three(through, PANEL_CLOSE@, central_head_text(p));
        },
        DockArea::Center => {
            lemma_prefix_of_sum(through, Seq::<char>::empty());
            assert(through + Seq::<char>::empty() =~= through);
        },
        DockArea::Free => {},
    }
}

proof fn lemma_through_grows(p: ProjectView, area: DockArea)
    requires
        area != DockArea::Free,
    ensures
        text_through(p, area).is_prefix_of(text_through(p, next_area(area))),
{
    let next = next_area(area);
    lemma_next_area_comes_after(p, area);
    lemma_prefix_of_sum(text_before(p, next), area_text(p.widgets, next, origin_text(next)));
    lemma_prefix_chain(text_through(p, area), text_before(p, next), text_through(p, next));
}

/// The text of the routine begins with the text up to the end of the code
/// of each area.
pub proof fn lemma_area_stands_in_routine(p: ProjectView, area: DockArea)
    ensures
        text_through(p, area).is_prefix_of(routine_text(p)),
    decreases 5 - area_rank(area),
{
    if area == DockArea::Free {
        lemma_routine_ends_after_free(p);
    } else {
        lemma_area_stands_in_routine(p, next_area(area));
        lemma_through_grows(p, area);
        lemma_prefix_chain(
            text_through(p, area),
            text_through(p, next_area(area)),
            routine_text(p),
        );
    }
}

/// The routine builds the areas in their fixed order, whatever the order,
/// the handles and the z-values of the widgets: the text of the routine
/// begins with the text up to the end of the code of each area, and the
/// code of an area ends before the code of the next area begins.
pub proof fn lemma_areas_in_fixed_order(p: ProjectView)
    ensures
        forall|area: DockArea| #[trigger] text_through(p, area).is_prefix_of(routine_text(p)),
        text_through(p, DockArea::Top).is_prefix_of(text_before(p, DockArea::Bottom)),
        text_through(p, DockArea::Bottom).is_prefix_of(text_before(p, DockArea::Left)),
        text_through(p, DockArea::Left).is_prefix_of(text_before(p, DockArea::Right)),
        text_through(p, DockArea::Right).is_prefix_of(text_before(p, DockArea::Center)),
        text_through(p, DockArea::Center).is_prefix_of(text_before(p, DockArea::Free)),
{
    assert forall|area: DockArea| #[trigger]
        text_through(p, area).is_prefix_of(routine_text(p)) by {
        lemma_area_stands_in_routine(p, area);
    }
    lemma_next_area_comes_after(p, DockArea::Top);
    lemma_next_area_comes_after(p, DockArea::Bottom);
    lemma_next_area_comes_after(p, DockArea::Left);
    lemma_next_area_comes_after(p, DockArea::Right);
    lemma_next_area_comes_after(p, DockArea::Center);
}

/// A widget as the generator takes it: with its selected index held within
/// its items.
pub open spec fn with_clamped_selection(w: WidgetView) -> WidgetView {
    WidgetView {
        props: PropsView {
            selected: clamped_selection(w.props.selected, w.props.items.len()) as usize,
            ..w.props
        },
        ..w
    }
}

/// A selected index that lies beyond the items counts as the index of the
/// last item: every line and every block that is generated for the widget
/// is the same as for the widget with that index.
pub proof fn lemma_selection_counts_as_clamped(w: WidgetView, origin: Seq<char>, qualified: bool)
    ensures
        state_field_text(w, qualified) == state_field_text(with_clamped_selection(w), qualified),
        state_init_text(w) == state_init_text(with_clamped_selection(w)),
        widget_block_text(w, origin) == widget_block_text(with_clamped_selection(w), origin),
{
}

/// Two projects that hold the same give the same text, character for
/// character: the text depends on nothing but what the project holds, the
/// format and the choice of comments.
pub proof fn lemma_generation_is_deterministic(
    p: Project,
    q: Project,
    format: CodeGenFormat,
    comments: bool,
)
    requires
        p@ == q@,
    ensures
        generated_text(p@, format, comments) == generated_text(q@, format, comments),
{
}

} // verus!
