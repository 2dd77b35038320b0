//! The generator: from a project to the source text of a program that
//! rebuilds its interface.
//!
//! The generated program keeps the widgets of each docking area together
//! and builds the areas in a fixed order: top, bottom, left, right, centre,
//! and last the widgets that float over the centre. Within an area the
//! widgets follow the order of the project, whatever their z-values.

pub mod laws;
pub mod passages;
pub mod render;
pub mod state;

use vstd::prelude::*;
use crate::codegen::passages::{
    APP, APP_BANNER, BANNER, BANNER_SHORT, CALL_NOTE, CANVAS_CLOSE, CARGO_MANIFEST, CENTRAL_CLOSE,
    CENTRAL_OPEN, DEFAULT_CLOSE, DEFAULT_OPEN, EMBED_NOTE, IMPORTS, PANEL_CLOSE, RENDER_OPEN,
    STATE_CLOSE, STATE_NOTE, STATE_OPEN, TREE_HELPER, TREE_HELPER_FLAT,
};
use crate::codegen::render::{widget_block, widget_block_text};
use crate::codegen::state::{state_field, state_field_text, state_init, state_init_text};
use crate::project::{Project, ProjectView, widget_views};
use crate::text::{bool_text, push_bool, push_tenths, tenths_text};
use crate::widget::{DockArea, Widget, WidgetKind, WidgetView};

verus! {

/// The shape of the generated text.
#[derive(Clone, Copy, Debug, PartialEq, Eq, Structural)]
pub enum CodeGenFormat {
    /// A whole program in one file.
    SingleFile,
    /// The whole program, after the manifest that it is built with, each
    /// under a mark that names its file.
    SeparateFiles,
    /// The state record and the routine that builds the interface, for
    /// use inside another program.
    UiOnly,
}

impl Default for CodeGenFormat {
    fn default() -> (format: Self)
        ensures
            format == CodeGenFormat::SingleFile,
    {
        CodeGenFormat::SingleFile
    }
}

impl CodeGenFormat {
    /// The name of the format as a person reads it.
    pub open spec fn spec_display_name(self) -> Seq<char> {
        match self {
            CodeGenFormat::SingleFile => "Single File"@,
            CodeGenFormat::SeparateFiles => "Separate Files"@,
            CodeGenFormat::UiOnly => "UI Function Only"@,
        }
    }

    /// The name of the format as a person reads it.
    pub fn display_name(&self) -> (name: &'static str)
        ensures
            name@ == self.spec_display_name(),
    {
        match self {
            CodeGenFormat::SingleFile => "Single File",
            CodeGenFormat::SeparateFiles => "Separate Files",
            CodeGenFormat::UiOnly => "UI Function Only",
        }
    }
}

/// The passage where it is wanted, nothing where it is not.
pub open spec fn optional_text(wanted: bool, passage: Seq<char>) -> Seq<char> {
    if wanted {
        passage
    } else {
        Seq::empty()
    }
}

fn optional(wanted: bool, passage: &'static str) -> (s: &'static str)
    ensures
        s@ == optional_text(wanted, passage@),
{
    if wanted {
        passage
    } else {
        proof {
            reveal_strlit("");
            assert(""@ =~= Seq::<char>::empty());
        }
        ""
    }
}

/// Whether one of the widgets is a tree.
pub open spec fn has_tree(widgets: Seq<WidgetView>) -> bool {
    exists|i: int| 0 <= i < widgets.len() && (#[trigger] widgets[i]).kind == WidgetKind::Tree
}

fn any_tree(widgets: &Vec<Widget>) -> (found: bool)
    ensures
        found == has_tree(widget_views(widgets@)),
{
    let mut i: usize = 0;
    while i < widgets.len()
        invariant
            i <= widgets.len(),
            forall|j: int| 0 <= j < i ==> (#[trigger] widget_views(widgets@)[j]).kind
                != WidgetKind::Tree,
        decreases widgets.len() - i,
    {
        if widgets[i].kind == WidgetKind::Tree {
            assert(widget_views(widgets@)[i as int].kind == WidgetKind::Tree);
            return true;
        }
        i += 1;
    }
    false
}

/// The lines that declare the state fields of the widgets, in the order
/// of the project.
pub open spec fn state_fields_text(widgets: Seq<WidgetView>, qualified: bool) -> Seq<char> {
    widgets.flat_map(|w: WidgetView| state_field_text(w, qualified))
}

/// The state record: the fields of the four panels, then one field for
/// each widget that holds state.
pub open spec fn state_record_text(widgets: Seq<WidgetView>, qualified: bool) -> Seq<char> {
    STATE_OPEN@ + state_fields_text(widgets, qualified) + STATE_CLOSE@
}

fn state_record(widgets: &Vec<Widget>, qualified: bool) -> (s: String)
    ensures
        s@ == state_record_text(widget_views(widgets@), qualified),
{
    let ghost all = widget_views(widgets@);
    let ghost line = |w: WidgetView| state_field_text(w, qualified);
    let mut fields = String::new();
    let mut i: usize = 0;
    assert(all.take(0).flat_map(line) =~= Seq::<char>::empty());
    while i < widgets.len()
        invariant
            i <= widgets.len(),
            all == widget_views(widgets@),
            line == (|w: WidgetView| state_field_text(w, qualified)),
            fields@ == all.take(i as int).flat_map(line),
        decreases widgets.len() - i,
    {
        proof {
            all.lemma_flat_map_take_append(line, i as int);
        }
        fields.append(state_field(&widgets[i], qualified).as_str());
        i += 1;
    }
    assert(all.take(widgets.len() as int) =~= all);
    let mut s = String::from_str(STATE_OPEN);
    s.append(fields.as_str());
    s.append(STATE_CLOSE);
    s
}

/// The lines that give the state fields of the widgets their first
/// values, in the order of the project.
pub open spec fn state_inits_text(widgets: Seq<WidgetView>) -> Seq<char> {
    widgets.flat_map(|w: WidgetView| state_init_text(w))
}

/// The first values of the state record: which panels the project shows,
/// then the value of each widget that holds state.
pub open spec fn state_default_text(p: ProjectView) -> Seq<char> {
    DEFAULT_OPEN@ + "            enable_top: "@ + bool_text(p.panel_top_enabled)
        + ", enable_bottom: "@ + bool_text(p.panel_bottom_enabled) + ", enable_left: "@
        + bool_text(p.panel_left_enabled) + ", enable_right: "@ + bool_text(
        p.panel_right_enabled,
    ) + ",\n"@ + state_inits_text(p.widgets) + DEFAULT_CLOSE@
}

fn state_default(project: &Project) -> (s: String)
    ensures
        s@ == state_default_text(project@),
{
    let widgets = &project.widgets;
    let ghost all = widget_views(widgets@);
    let ghost line = |w: WidgetView| state_init_text(w);
    let mut inits = String::new();
    let mut i: usize = 0;
    assert(all.take(0).flat_map(line) =~= Seq::<char>::empty());
    while i < widgets.len()
        invariant
            i <= widgets.len(),
            all == widget_views(widgets@),
            line == (|w: WidgetView| state_init_text(w)),
            inits@ == all.take(i as int).flat_map(line),
        decreases widgets.len() - i,
    {
        proof {
            all.lemma_flat_map_take_append(line, i as int);
        }
        inits.append(state_init(&widgets[i]).as_str());
        i += 1;
    }
    assert(all.take(widgets.len() as int) =~= all);
    let mut s = String::from_str(DEFAULT_OPEN);
    s.append("            enable_top: ");
    push_bool(&mut s, project.panel_top_enabled);
    s.append(", enable_bottom: ");
    push_bool(&mut s, project.panel_bottom_enabled);
    s.append(", enable_left: ");
    push_bool(&mut s, project.panel_left_enabled);
    s.append(", enable_right: ");
    push_bool(&mut s, project.panel_right_enabled);
    s.append(",\n");
    s.append(inits.as_str());
    s.append(DEFAULT_CLOSE);
    s
}

/// The widgets that are docked to `area`, in the order of the project.
pub open spec fn docked(widgets: Seq<WidgetView>, area: DockArea) -> Seq<WidgetView> {
    widgets.filter(|w: WidgetView| w.area == area)
}

/// The code that builds the widgets of one docking area, in the order of
/// the project.
pub open spec fn area_text(widgets: Seq<WidgetView>, area: DockArea, origin: Seq<char>) -> Seq<
    char,
> {
    docked(widgets, area).flat_map(|w: WidgetView| widget_block_text(w, origin))
}

fn area_blocks(widgets: &Vec<Widget>, area: DockArea, origin: &str) -> (s: String)
    ensures
        s@ == area_text(widget_views(widgets@), area, origin@),
{
    let ghost all = widget_views(widgets@);
    let ghost here = |w: WidgetView| w.area == area;
    let ghost block = |w: WidgetView| widget_block_text(w, origin@);
    let mut s = String::new();
    let mut i: usize = 0;
    assert(all.take(0).filter(here) =~= Seq::<WidgetView>::empty());
    assert(Seq::<WidgetView>::empty().flat_map(block) =~= Seq::<char>::empty());
    while i < widgets.len()
        invariant
            i <= widgets.len(),
            all == widget_views(widgets@),
            here == (|w: WidgetView| w.area == area),
            block == (|w: WidgetView| widget_block_text(w, origin@)),
            s@ == all.take(i as int).filter(here).flat_map(block),
        decreases widgets.len() - i,
    {
        proof {
            all.lemma_take_succ_push(i as int);
            all.take(i as int).lemma_filter_push(all[i as int], here);
            all.take(i as int).filter(here).lemma_flat_map_push(block, all[i as int]);
        }
        if widgets[i].area == area {
            s.append(widget_block(&widgets[i], origin).as_str());
        }
        i += 1;
    }
    assert(all.take(widgets.len() as int) =~= all);
    s
}

/// The name of a panel in the generated program.
pub open spec fn panel_name_text(area: DockArea) -> Seq<char> {
    match area {
        DockArea::Top => "top"@,
        DockArea::Bottom => "bottom"@,
        DockArea::Left => "left"@,
        DockArea::Right => "right"@,
        DockArea::Center => "center"@,
        DockArea::Free => "free"@,
    }
}

/// The type of a panel in the generated program: the panels above and
/// below the centre are of one type, those beside it of another.
pub open spec fn panel_type_text(area: DockArea) -> Seq<char> {
    match area {
        DockArea::Top | DockArea::Bottom => "TopBottomPanel"@,
        DockArea::Left | DockArea::Right | DockArea::Center | DockArea::Free => "SidePanel"@,
    }
}

/// The origin that the widgets of a panel are placed from.
pub open spec fn panel_origin_text() -> Seq<char> {
    "ui.min_rect().min"@
}

/// The origin that the widgets of the centre are placed from.
pub open spec fn canvas_origin_text() -> Seq<char> {
    "canvas.min"@
}

/// The head of one of the four panels round the centre: the panel is
/// shown where the state says so.
pub open spec fn panel_head_text(area: DockArea) -> Seq<char> {
    "    if state.enable_"@ + panel_name_text(area) + " {\n        egui::"@ + panel_type_text(area)
        + "::"@ + panel_name_text(area) + "(\"gen_"@ + panel_name_text(area)
        + "\")\n            .resizable(true)\n            .show(ctx, |ui| {\n"@
}

/// One of the four panels round the centre: it builds the widgets that
/// are docked to it.
pub open spec fn panel_text(widgets: Seq<WidgetView>, area: DockArea) -> Seq<char> {
    panel_head_text(area) + area_text(widgets, area, panel_origin_text()) + PANEL_CLOSE@
}

fn panel_name(area: DockArea) -> (s: &'static str)
    ensures
        s@ == panel_name_text(area),
{
    match area {
        DockArea::Top => "top",
        DockArea::Bottom => "bottom",
        DockArea::Left => "left",
        DockArea::Right => "right",
        DockArea::Center => "center",
        DockArea::Free => "free",
    }
}

fn panel_type(area: DockArea) -> (s: &'static str)
    ensures
        s@ == panel_type_text(area),
{
    match area {
        DockArea::Top | DockArea::Bottom => "TopBottomPanel",
        DockArea::Left | DockArea::Right | DockArea::Center | DockArea::Free => "SidePanel",
    }
}

fn panel_head(area: DockArea) -> (s: String)
    ensures
        s@ == panel_head_text(area),
{
    let mut s = String::from_str("    if state.enable_");
    s.append(panel_name(area));
    s.append(" {\n        egui::");
    s.append(panel_type(area));
    s.append("::");
    s.append(panel_name(area));
    s.append("(\"gen_");
    s.append(panel_name(area));
    s.append("\")\n            .resizable(true)\n            .show(ctx, |ui| {\n");
    s
}

fn panel(widgets: &Vec<Widget>, area: DockArea) -> (s: String)
    ensures
        s@ == panel_text(widget_views(widgets@), area),
{
    let mut s = panel_head(area);
    s.append(area_blocks(widgets, area, "ui.min_rect().min").as_str());
    s.append(PANEL_CLOSE);
    s
}

/// The head of the central panel: the canvas in the size of the project.
pub open spec fn central_head_text(p: ProjectView) -> Seq<char> {
    CENTRAL_OPEN@
        + "        let canvas = egui::Rect::from_min_size(ui.min_rect().min, egui::vec2("@
        + tenths_text(p.canvas_size.width as int) + ", "@ + tenths_text(
        p.canvas_size.height as int,
    ) + CANVAS_CLOSE@
}

/// The central panel: the canvas, then the widgets of the centre, then
/// the widgets that float over it.
pub open spec fn central_text(p: ProjectView) -> Seq<char> {
    central_head_text(p) + area_text(p.widgets, DockArea::Center, canvas_origin_text())
        + area_text(p.widgets, DockArea::Free, canvas_origin_text()) + CENTRAL_CLOSE@
}

fn central_head(project: &Project) -> (s: String)
    ensures
        s@ == central_head_text(project@),
{
    let mut s = String::from_str(CENTRAL_OPEN);
    s.append("        let canvas = egui::Rect::from_min_size(ui.min_rect().min, egui::vec2(");
    push_tenths(&mut s, project.canvas_size.width as i64);
    s.append(", ");
    push_tenths(&mut s, project.canvas_size.height as i64);
    s.append(CANVAS_CLOSE);
    s
}

fn central(project: &Project) -> (s: String)
    ensures
        s@ == central_text(project@),
{
    let mut s = central_head(project);
    s.append(area_blocks(&project.widgets, DockArea::Center, "canvas.min").as_str());
    s.append(area_blocks(&project.widgets, DockArea::Free, "canvas.min").as_str());
    s.append(CENTRAL_CLOSE);
    s
}

/// The routine that builds the interface in every frame: the four panels
/// and the centre, in their fixed order.
pub open spec fn routine_text(p: ProjectView) -> Seq<char> {
    RENDER_OPEN@ + panel_text(p.widgets, DockArea::Top) + panel_text(p.widgets, DockArea::Bottom)
        + panel_text(p.widgets, DockArea::Left) + panel_text(p.widgets, DockArea::Right)
        + central_text(p) + "}\n"@
}

fn routine(project: &Project) -> (s: String)
    ensures
        s@ == routine_text(project@),
{
    let mut s = String::from_str(RENDER_OPEN);
    s.append(panel(&project.widgets, DockArea::Top).as_str());
    s.append(panel(&project.widgets, DockArea::Bottom).as_str());
    s.append(panel(&project.widgets, DockArea::Left).as_str());
    s.append(panel(&project.widgets, DockArea::Right).as_str());
    s.append(central(project).as_str());
    s.append("}\n");
    s
}

/// A whole program: the declarations that a tree needs, where the project
/// has one; the state record and its first values; the routine; and an
/// application that runs it.
pub open spec fn single_file_text(p: ProjectView, comments: bool) -> Seq<char> {
    (if comments {
        BANNER@
    } else {
        BANNER_SHORT@
    }) + IMPORTS@ + optional_text(has_tree(p.widgets), TREE_HELPER@) + state_record_text(
        p.widgets,
        false,
    ) + state_default_text(p) + routine_text(p) + "\n"@ + optional_text(comments, APP_BANNER@)
        + APP@
}

/// Generates a whole program in one file.
pub fn generate_single_file(project: &Project, comments: bool) -> (text: String)
    ensures
        text@ == single_file_text(project@, comments),
{
    let mut s = String::from_str(
        if comments {
            BANNER
        } else {
            BANNER_SHORT
        },
    );
    s.append(IMPORTS);
    s.append(optional(any_tree(&project.widgets), TREE_HELPER));
    s.append(state_record(&project.widgets, false).as_str());
    s.append(state_default(project).as_str());
    s.append(routine(project).as_str());
    s.append("\n");
    s.append(optional(comments, APP_BANNER));
    s.append(APP);
    s
}

/// The whole program after the manifest that it is built with, each under
/// a mark that names its file. Nothing is written to disk: the marks are
/// text.
pub open spec fn separate_files_text(p: ProjectView, comments: bool) -> Seq<char> {
    CARGO_MANIFEST@ + single_file_text(p, comments)
}

/// Generates the whole program after its manifest, each under the mark of
/// its file.
pub fn generate_separate_files(project: &Project, comments: bool) -> (text: String)
    ensures
        text@ == separate_files_text(project@, comments),
{
    let mut s = String::from_str(CARGO_MANIFEST);
    s.append(generate_single_file(project, comments).as_str());
    s
}

/// The text for embedding: the state record and the routine, without the
/// imports, the first values and the application of a whole program.
pub open spec fn ui_only_text(p: ProjectView, comments: bool) -> Seq<char> {
    optional_text(comments, EMBED_NOTE@) + STATE_NOTE@ + optional_text(
        has_tree(p.widgets),
        TREE_HELPER_FLAT@,
    ) + state_record_text(p.widgets, true) + CALL_NOTE@ + routine_text(p)
}

/// Generates the state record and the routine, for use inside another
/// program.
pub fn generate_ui_only(project: &Project, comments: bool) -> (text: String)
    ensures
        text@ == ui_only_text(project@, comments),
{
    let mut s = String::from_str(optional(comments, EMBED_NOTE));
    s.append(STATE_NOTE);
    s.append(optional(any_tree(&project.widgets), TREE_HELPER_FLAT));
    s.append(state_record(&project.widgets, true).as_str());
    s.append(CALL_NOTE);
    s.append(routine(project).as_str());
    s
}

/// The text that is generated for a project in a format, with or without
/// comments.
pub open spec fn generated_text(p: ProjectView, format: CodeGenFormat, comments: bool) -> Seq<
    char,
> {
    match format {
        CodeGenFormat::SingleFile => single_file_text(p, comments),
        CodeGenFormat::SeparateFiles => separate_files_text(p, comments),
        CodeGenFormat::UiOnly => ui_only_text(p, comments),
    }
}

/// Generates the source text for `project` in the given format. The
/// project is left as it is, and every project gives a text.
pub fn generate(project: &Project, format: CodeGenFormat, include_comments: bool) -> (text: String)
    ensures
        text@ == generated_text(project@, format, include_comments),
{
    match format {
        CodeGenFormat::SingleFile => generate_single_file(project, include_comments),
        CodeGenFormat::SeparateFiles => generate_separate_files(project, include_comments),
        CodeGenFormat::UiOnly => generate_ui_only(project, include_comments),
    }
}

} // verus!
