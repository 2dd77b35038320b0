//! The state of the generated program: one field for each widget whose
//! control holds a value that changes while the program runs.

use vstd::prelude::*;
use crate::escape::{push_string_literal, string_literal};
use crate::text::{
    bool_text, decimal, lemma_decimal_is_not_empty, lemma_decimal_is_one_to_one, push_bool,
    push_decimal, push_signed, push_thousandths, signed_decimal, thousandths_text,
};
use crate::widget::{Widget, WidgetKind, WidgetView, clamped_selection};

verus! {

/// The name of the date type: with its crate in front where the generated
/// text does not import it.
pub open spec fn date_type_text(qualified: bool) -> Seq<char> {
    if qualified {
        "chrono::NaiveDate"@
    } else {
        "NaiveDate"@
    }
}

fn date_type(qualified: bool) -> (s: &'static str)
    ensures
        s@ == date_type_text(qualified),
{
    if qualified {
        "chrono::NaiveDate"
    } else {
        "NaiveDate"
    }
}

/// The value that a progress bar starts with: the stored value, held
/// between 0 and 1.
pub open spec fn spec_progress_value(value: i32) -> i32 {
    if value < 0 {
        0
    } else if value > 1000 {
        1000
    } else {
        value
    }
}

#[verifier::when_used_as_spec(spec_progress_value)]
pub fn progress_value(value: i32) -> (v: i32)
    ensures
        v == spec_progress_value(value),
{
    if value < 0 {
        0
    } else if value > 1000 {
        1000
    } else {
        value
    }
}

/// The month that a date picker starts with: the stored month, held
/// between 1 and 12.
pub open spec fn spec_date_month(month: u32) -> u32 {
    if month < 1 {
        1
    } else if month > 12 {
        12
    } else {
        month
    }
}

#[verifier::when_used_as_spec(spec_date_month)]
pub fn date_month(month: u32) -> (m: u32)
    ensures
        m == spec_date_month(month),
{
    if month < 1 {
        1
    } else if month > 12 {
        12
    } else {
        month
    }
}

/// The day that a date picker starts with: the stored day, held between 1
/// and 28, so that it exists in every month.
pub open spec fn spec_date_day(day: u32) -> u32 {
    if day < 1 {
        1
    } else if day > 28 {
        28
    } else {
        day
    }
}

#[verifier::when_used_as_spec(spec_date_day)]
pub fn date_day(day: u32) -> (d: u32)
    ensures
        d == spec_date_day(day),
{
    if day < 1 {
        1
    } else if day > 28 {
        28
    } else {
        day
    }
}

/// Whether a control of the kind holds a value that changes while the
/// generated program runs: a text, a flag, a number, a selected index, a
/// date, a colour, the tab that is shown, or whether a window is open.
pub open spec fn holds_state(kind: WidgetKind) -> bool {
    match kind {
        WidgetKind::TextEdit
        | WidgetKind::Checkbox
        | WidgetKind::Slider
        | WidgetKind::ProgressBar
        | WidgetKind::SelectableLabel
        | WidgetKind::RadioGroup
        | WidgetKind::ComboBox
        | WidgetKind::MenuButton
        | WidgetKind::CollapsingHeader
        | WidgetKind::DatePicker
        | WidgetKind::Password
        | WidgetKind::AngleSelector
        | WidgetKind::TextArea
        | WidgetKind::DragValue
        | WidgetKind::ColorPicker
        | WidgetKind::Code
        | WidgetKind::TabBar
        | WidgetKind::Window => true,
        WidgetKind::Label
        | WidgetKind::Heading
        | WidgetKind::Small
        | WidgetKind::Monospace
        | WidgetKind::Button
        | WidgetKind::ImageTextButton
        | WidgetKind::Link
        | WidgetKind::Hyperlink
        | WidgetKind::Separator
        | WidgetKind::Tree
        | WidgetKind::Spinner
        | WidgetKind::Image
        | WidgetKind::Placeholder
        | WidgetKind::Group
        | WidgetKind::ScrollBox
        | WidgetKind::Columns => false,
    }
}

/// The stem of the name of the state field of a kind: what stands before
/// the handle of the widget. Empty for a kind that holds no state.
pub open spec fn state_stem_text(kind: WidgetKind) -> Seq<char> {
    match kind {
        WidgetKind::TextEdit => "text_"@,
        WidgetKind::Checkbox => "checked_"@,
        WidgetKind::Slider => "value_"@,
        WidgetKind::ProgressBar => "progress_"@,
        WidgetKind::SelectableLabel
        | WidgetKind::RadioGroup
        | WidgetKind::ComboBox
        | WidgetKind::MenuButton => "sel_"@,
        WidgetKind::CollapsingHeader => "open_"@,
        WidgetKind::DatePicker => "date_"@,
        WidgetKind::Password => "pass_"@,
        WidgetKind::AngleSelector => "angle_"@,
        WidgetKind::TextArea => "textarea_"@,
        WidgetKind::DragValue => "drag_"@,
        WidgetKind::ColorPicker => "color_"@,
        WidgetKind::Code => "code_"@,
        WidgetKind::TabBar => "tab_"@,
        WidgetKind::Window => "window_"@,
        WidgetKind::Label
        | WidgetKind::Heading
        | WidgetKind::Small
        | WidgetKind::Monospace
        | WidgetKind::Button
        | WidgetKind::ImageTextButton
        | WidgetKind::Link
        | WidgetKind::Hyperlink
        | WidgetKind::Separator
        | WidgetKind::Tree
        | WidgetKind::Spinner
        | WidgetKind::Image
        | WidgetKind::Placeholder
        | WidgetKind::Group
        | WidgetKind::ScrollBox
        | WidgetKind::Columns => Seq::empty(),
    }
}

fn state_stem(kind: WidgetKind) -> (s: &'static str)
    ensures
        s@ == state_stem_text(kind),
{
    match kind {
        WidgetKind::TextEdit => "text_",
        WidgetKind::Checkbox => "checked_",
        WidgetKind::Slider => "value_",
        WidgetKind::ProgressBar => "progress_",
        WidgetKind::SelectableLabel
        | WidgetKind::RadioGroup
        | WidgetKind::ComboBox
        | WidgetKind::MenuButton => "sel_",
        WidgetKind::CollapsingHeader => "open_",
        WidgetKind::DatePicker => "date_",
        WidgetKind::Password => "pass_",
        WidgetKind::AngleSelector => "angle_",
        WidgetKind::TextArea => "textarea_",
        WidgetKind::DragValue => "drag_",
        WidgetKind::ColorPicker => "color_",
        WidgetKind::Code => "code_",
        WidgetKind::TabBar => "tab_",
        WidgetKind::Window => "window_",
        WidgetKind::Label
        | WidgetKind::Heading
        | WidgetKind::Small
        | WidgetKind::Monospace
        | WidgetKind::Button
        | WidgetKind::ImageTextButton
        | WidgetKind::Link
        | WidgetKind::Hyperlink
        | WidgetKind::Separator
        | WidgetKind::Tree
        | WidgetKind::Spinner
        | WidgetKind::Image
        | WidgetKind::Placeholder
        | WidgetKind::Group
        | WidgetKind::ScrollBox
        | WidgetKind::Columns => empty_text(),
    }
}

fn empty_text() -> (s: &'static str)
    ensures
        s@ == Seq::<char>::empty(),
{
    proof {
        reveal_strlit("");
        assert(""@ =~= Seq::<char>::empty());
    }
    ""
}

/// What stands behind the handle in the name of the state field of a kind:
/// the field of a window says whether the window is open.
pub open spec fn state_suffix_text(kind: WidgetKind) -> Seq<char> {
    if kind == WidgetKind::Window {
        "_open"@
    } else {
        Seq::empty()
    }
}

/// The name of the state field of a widget: the stem of its kind, its
/// handle, and what the kind puts behind it. The record declares the field
/// under this name, the first values set it under this name, and the block
/// of the widget reads and writes it under this name.
pub open spec fn state_name_text(w: WidgetView) -> Seq<char> {
    state_stem_text(w.kind) + decimal(w.id as nat) + state_suffix_text(w.kind)
}

/// The name of the state field of `w`.
pub fn state_name(w: &Widget) -> (s: String)
    ensures
        s@ == state_name_text(w@),
{
    let mut s = String::from_str(state_stem(w.kind));
    push_decimal(&mut s, w.id.value());
    if w.kind == WidgetKind::Window {
        s.append("_open");
    } else {
        assert(s@ + Seq::<char>::empty() =~= s@);
    }
    s
}

/// The exec form of [`holds_state`].
fn kind_holds_state(kind: WidgetKind) -> (b: bool)
    ensures
        b == holds_state(kind),
{
    match kind {
        WidgetKind::TextEdit
        | WidgetKind::Checkbox
        | WidgetKind::Slider
        | WidgetKind::ProgressBar
        | WidgetKind::SelectableLabel
        | WidgetKind::RadioGroup
        | WidgetKind::ComboBox
        | WidgetKind::MenuButton
        | WidgetKind::CollapsingHeader
        | WidgetKind::DatePicker
        | WidgetKind::Password
        | WidgetKind::AngleSelector
        | WidgetKind::TextArea
        | WidgetKind::DragValue
        | WidgetKind::ColorPicker
        | WidgetKind::Code
        | WidgetKind::TabBar
        | WidgetKind::Window => true,
        WidgetKind::Label
        | WidgetKind::Heading
        | WidgetKind::Small
        | WidgetKind::Monospace
        | WidgetKind::Button
        | WidgetKind::ImageTextButton
        | WidgetKind::Link
        | WidgetKind::Hyperlink
        | WidgetKind::Separator
        | WidgetKind::Tree
        | WidgetKind::Spinner
        | WidgetKind::Image
        | WidgetKind::Placeholder
        | WidgetKind::Group
        | WidgetKind::ScrollBox
        | WidgetKind::Columns => false,
    }
}

/// The type of the state field of a kind. Empty for a kind that holds no
/// state.
pub open spec fn state_type_text(kind: WidgetKind, qualified: bool) -> Seq<char> {
    match kind {
        WidgetKind::TextEdit
        | WidgetKind::Password
        | WidgetKind::TextArea
        | WidgetKind::Code => "String"@,
        WidgetKind::Checkbox
        | WidgetKind::SelectableLabel
        | WidgetKind::CollapsingHeader
        | WidgetKind::Window => "bool"@,
        WidgetKind::Slider
        | WidgetKind::ProgressBar
        | WidgetKind::AngleSelector
        | WidgetKind::DragValue => "f32"@,
        WidgetKind::RadioGroup
        | WidgetKind::ComboBox
        | WidgetKind::MenuButton
        | WidgetKind::TabBar => "usize"@,
        WidgetKind::DatePicker => date_type_text(qualified),
        WidgetKind::ColorPicker => "egui::Color32"@,
        WidgetKind::Label
        | WidgetKind::Heading
        | WidgetKind::Small
        | WidgetKind::Monospace
        | WidgetKind::Button
        | WidgetKind::ImageTextButton
        | WidgetKind::Link
        | WidgetKind::Hyperlink
        | WidgetKind::Separator
        | WidgetKind::Tree
        | WidgetKind::Spinner
        | WidgetKind::Image
        | WidgetKind::Placeholder
        | WidgetKind::Group
        | WidgetKind::ScrollBox
        | WidgetKind::Columns => Seq::empty(),
    }
}

fn state_type(kind: WidgetKind, qualified: bool) -> (s: &'static str)
    ensures
        s@ == state_type_text(kind, qualified),
{
    match kind {
        WidgetKind::TextEdit
        | WidgetKind::Password
        | WidgetKind::TextArea
        | WidgetKind::Code => "String",
        WidgetKind::Checkbox
        | WidgetKind::SelectableLabel
        | WidgetKind::CollapsingHeader
        | WidgetKind::Window => "bool",
        WidgetKind::Slider
        | WidgetKind::ProgressBar
        | WidgetKind::AngleSelector
        | WidgetKind::DragValue => "f32",
        WidgetKind::RadioGroup
        | WidgetKind::ComboBox
        | WidgetKind::MenuButton
        | WidgetKind::TabBar => "usize",
        WidgetKind::DatePicker => date_type(qualified),
        WidgetKind::ColorPicker => "egui::Color32",
        WidgetKind::Label
        | WidgetKind::Heading
        | WidgetKind::Small
        | WidgetKind::Monospace
        | WidgetKind::Button
        | WidgetKind::ImageTextButton
        | WidgetKind::Link
        | WidgetKind::Hyperlink
        | WidgetKind::Separator
        | WidgetKind::Tree
        | WidgetKind::Spinner
        | WidgetKind::Image
        | WidgetKind::Placeholder
        | WidgetKind::Group
        | WidgetKind::ScrollBox
        | WidgetKind::Columns => empty_text(),
    }
}

/// The line that declares the state field of a widget, under the name of
/// the field; nothing for a widget whose kind holds no state.
pub open spec fn state_field_text(w: WidgetView, qualified: bool) -> Seq<char> {
    if holds_state(w.kind) {
        "    "@ + state_name_text(w) + ": "@ + state_type_text(w.kind, qualified) + ",\n"@
    } else {
        Seq::empty()
    }
}

/// The line that declares the state field of `w`.
pub fn state_field(w: &Widget, qualified: bool) -> (s: String)
    ensures
        s@ == state_field_text(w@, qualified),
{
    if kind_holds_state(w.kind) {
        let mut s = String::from_str("    ");
        s.append(state_name(w).as_str());
        s.append(": ");
        s.append(state_type(w.kind, qualified));
        s.append(",\n");
        s
    } else {
        String::new()
    }
}

/// The value that the state field of a widget starts with, taken from the
/// widget's properties as they are. A selected index is held within the
/// items, a progress value and a date within their ranges. A window starts
/// open. Empty for a widget whose kind holds no state.
pub open spec fn first_value_text(w: WidgetView) -> Seq<char> {
    match w.kind {
        WidgetKind::TextEdit
        | WidgetKind::Password
        | WidgetKind::TextArea
        | WidgetKind::Code => string_literal(w.props.text) + ".to_owned()"@,
        WidgetKind::Checkbox
        | WidgetKind::SelectableLabel
        | WidgetKind::CollapsingHeader => bool_text(w.props.checked),
        WidgetKind::Window => bool_text(true),
        WidgetKind::Slider
        | WidgetKind::AngleSelector
        | WidgetKind::DragValue => thousandths_text(w.props.value as int),
        WidgetKind::ProgressBar => thousandths_text(progress_value(w.props.value) as int),
        WidgetKind::RadioGroup
        | WidgetKind::ComboBox
        | WidgetKind::MenuButton
        | WidgetKind::TabBar => decimal(clamped_selection(w.props.selected, w.props.items.len())),
        WidgetKind::DatePicker => "NaiveDate::from_ymd_opt("@ + signed_decimal(w.props.year as int)
            + ", "@ + decimal(date_month(w.props.month) as nat) + ", "@ + decimal(
            date_day(w.props.day) as nat,
        ) + ").unwrap()"@,
        WidgetKind::ColorPicker => "egui::Color32::from_rgba_unmultiplied("@ + decimal(
            w.props.color.r as nat,
        ) + ", "@ + decimal(w.props.color.g as nat) + ", "@ + decimal(w.props.color.b as nat)
            + ", "@ + decimal(w.props.color.a as nat) + ")"@,
        WidgetKind::Label
        | WidgetKind::Heading
        | WidgetKind::Small
        | WidgetKind::Monospace
        | WidgetKind::Button
        | WidgetKind::ImageTextButton
        | WidgetKind::Link
        | WidgetKind::Hyperlink
        | WidgetKind::Separator
        | WidgetKind::Tree
        | WidgetKind::Spinner
        | WidgetKind::Image
        | WidgetKind::Placeholder
        | WidgetKind::Group
        | WidgetKind::ScrollBox
        | WidgetKind::Columns => Seq::empty(),
    }
}

fn first_value(w: &Widget) -> (s: String)
    ensures
        s@ == first_value_text(w@),
{
    match w.kind {
        WidgetKind::TextEdit
        | WidgetKind::Password
        | WidgetKind::TextArea
        | WidgetKind::Code => {
            let mut s = String::new();
            push_string_literal(&mut s, w.props.text.as_str());
            s.append(".to_owned()");
            assert(s@ =~= string_literal(w@.props.text) + ".to_owned()"@);
            s
        },
        WidgetKind::Checkbox | WidgetKind::SelectableLabel | WidgetKind::CollapsingHeader => {
            let mut s = String::new();
            push_bool(&mut s, w.props.checked);
            assert(s@ =~= bool_text(w@.props.checked));
            s
        },
        WidgetKind::Window => {
            let mut s = String::new();
            push_bool(&mut s, true);
            assert(s@ =~= bool_text(true));
            s
        },
        WidgetKind::Slider | WidgetKind::AngleSelector | WidgetKind::DragValue => {
            let mut s = String::new();
            push_thousandths(&mut s, w.props.value as i64);
            assert(s@ =~= thousandths_text(w@.props.value as int));
            s
        },
        WidgetKind::ProgressBar => {
            let mut s = String::new();
            push_thousandths(&mut s, progress_value(w.props.value) as i64);
            assert(s@ =~= thousandths_text(progress_value(w@.props.value) as int));
            s
        },
        WidgetKind::RadioGroup
        | WidgetKind::ComboBox
        | WidgetKind::MenuButton
        | WidgetKind::TabBar => {
            let mut s = String::new();
            push_decimal(&mut s, w.props.clamped_selection() as u64);
            assert(s@ =~= decimal(
                clamped_selection(w@.props.selected, w@.props.items.len()),
            ));
            s
        },
        WidgetKind::DatePicker => {
            let mut s = String::from_str("NaiveDate::from_ymd_opt(");
            push_signed(&mut s, w.props.year as i64);
            s.append(", ");
            push_decimal(&mut s, date_month(w.props.month) as u64);
            s.append(", ");
            push_decimal(&mut s, date_day(w.props.day) as u64);
            s.append(").unwrap()");
            s
        },
        WidgetKind::ColorPicker => {
            let mut s = String::from_str("egui::Color32::from_rgba_unmultiplied(");
            push_decimal(&mut s, w.props.color.r as u64);
            s.append(", ");
            push_decimal(&mut s, w.props.color.g as u64);
            s.append(", ");
            push_decimal(&mut s, w.props.color.b as u64);
            s.append(", ");
            push_decimal(&mut s, w.props.color.a as u64);
            s.append(")");
            s
        },
        WidgetKind::Label
        | WidgetKind::Heading
        | WidgetKind::Small
        | WidgetKind::Monospace
        | WidgetKind::Button
        | WidgetKind::ImageTextButton
        | WidgetKind::Link
        | WidgetKind::Hyperlink
        | WidgetKind::Separator
        | WidgetKind::Tree
        | WidgetKind::Spinner
        | WidgetKind::Image
        | WidgetKind::Placeholder
        | WidgetKind::Group
        | WidgetKind::ScrollBox
        | WidgetKind::Columns => String::new(),
    }
}

/// The line that gives the state field of a widget its first value, under
/// the name of the field; nothing for a widget whose kind holds no state.
pub open spec fn state_init_text(w: WidgetView) -> Seq<char> {
    if holds_state(w.kind) {
        "            "@ + state_name_text(w) + ": "@ + first_value_text(w) + ",\n"@
    } else {
        Seq::empty()
    }
}

/// The line that gives the state field of `w` its first value.
pub fn state_init(w: &Widget) -> (s: String)
    ensures
        s@ == state_init_text(w@),
{
    if kind_holds_state(w.kind) {
        let mut s = String::from_str("            ");
        s.append(state_name(w).as_str());
        s.append(": ");
        s.append(first_value(w).as_str());
        s.append(",\n");
        s
    } else {
        String::new()
    }
}

/// A widget whose kind holds state has one line that declares its field
/// and one that gives the field its first value; a widget of another kind
/// has neither.
pub proof fn lemma_state_lines_go_together(w: WidgetView, qualified: bool)
    ensures
        state_field_text(w, qualified).len() > 0 <==> holds_state(w.kind),
        state_init_text(w).len() > 0 <==> holds_state(w.kind),
{
    lemma_decimal_is_not_empty(w.id as nat);
}

/// The stem of a kind that holds state ends in an underscore and has no
/// other; only the stem of a window begins with `w`.
proof fn lemma_stem_shape(kind: WidgetKind)
    requires
        holds_state(kind),
    ensures
        state_stem_text(kind).len() >= 2,
        state_stem_text(kind).last() == '_',
        forall|i: int|
            0 <= i < state_stem_text(kind).len() - 1 ==> (#[trigger] state_stem_text(kind)[i])
                != '_',
        state_stem_text(kind)[0] == 'w' <==> kind == WidgetKind::Window,
{
    reveal_strlit("text_");
    reveal_strlit("checked_");
    reveal_strlit("value_");
    reveal_strlit("progress_");
    reveal_strlit("sel_");
    reveal_strlit("open_");
    reveal_strlit("date_");
    reveal_strlit("pass_");
    reveal_strlit("angle_");
    reveal_strlit("textarea_");
    reveal_strlit("drag_");
    reveal_strlit("color_");
    reveal_strlit("code_");
    reveal_strlit("tab_");
    reveal_strlit("window_");
}

proof fn lemma_suffix_shape(kind: WidgetKind)
    ensures
        state_suffix_text(kind).len() > 0 ==> state_suffix_text(kind)[0] == '_',
        kind != WidgetKind::Window ==> state_suffix_text(kind).len() == 0,
{
    reveal_strlit("_open");
}

/// Where two names are the same text, their stems are the same.
proof fn lemma_same_name_same_stem(v: WidgetView, w: WidgetView)
    requires
        holds_state(v.kind),
        holds_state(w.kind),
        state_name_text(v) == state_name_text(w),
        state_stem_text(v.kind).len() <= state_stem_text(w.kind).len(),
    ensures
        state_stem_text(v.kind) == state_stem_text(w.kind),
{
    let s1 = state_stem_text(v.kind);
    let s2 = state_stem_text(w.kind);
    let n1 = state_name_text(v);
    let n2 = state_name_text(w);
    lemma_stem_shape(v.kind);
    lemma_stem_shape(w.kind);
    let last = s1.len() - 1;
    assert(n1[last] == s1[last]);
    assert(n2[last] == s2[last]);
    assert(s1.len() == s2.len());
    assert(s1 =~= s2) by {
        assert forall|i: int| 0 <= i < s1.len() implies s1[i] == s2[i] by {
            assert(n1[i] == s1[i]);
            assert(n2[i] == s2[i]);
        }
    }
}

/// The names of the state fields of two widgets with different handles
/// differ: where no two widgets of a project have the same handle, no two
/// fields of the state record have the same name.
pub proof fn lemma_state_names_differ(v: WidgetView, w: WidgetView)
    requires
        holds_state(v.kind),
        holds_state(w.kind),
        v.id != w.id,
    ensures
        state_name_text(v) != state_name_text(w),
{
    let s1 = state_stem_text(v.kind);
    let s2 = state_stem_text(w.kind);
    let a = decimal(v.id as nat);
    let b = decimal(w.id as nat);
    let f1 = state_suffix_text(v.kind);
    let f2 = state_suffix_text(w.kind);
    if state_name_text(v) == state_name_text(w) {
        if s1.len() <= s2.len() {
            lemma_same_name_same_stem(v, w);
        } else {
            lemma_same_name_same_stem(w, v);
        }
        lemma_stem_shape(v.kind);
        lemma_stem_shape(w.kind);
        lemma_suffix_shape(v.kind);
        lemma_suffix_shape(w.kind);
        assert(f1 == f2);
        lemma_decimal_is_one_to_one(v.id as nat, w.id as nat);
        assert(a.len() == b.len()) by {
            assert((s1 + a + f1).len() == (s2 + b + f2).len());
        }
        assert(a =~= b) by {
            assert forall|i: int| 0 <= i < a.len() implies a[i] == b[i] by {
                assert((s1 + a + f1)[s1.len() + i] == a[i]);
                assert((s2 + b + f2)[s2.len() + i] == b[i]);
            }
        }
    }
}

} // verus!
