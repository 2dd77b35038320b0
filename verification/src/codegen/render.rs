//! The code that builds one widget in the generated program.
//!
//! A widget other than a window is built inside a scope that is held to the
//! widget's rectangle: the docking area's origin moved by the widget's
//! position, with the widget's size. A window is placed by its own call.

use vstd::prelude::*;
use crate::codegen::state::{state_name, state_name_text};
use crate::escape::{push_string_literal, string_literal};
use crate::outline::{
    Outline, OutlineNode, forest_view, lemma_node_view, lemma_outline_of_nothing, outline_of,
    parse_outline,
};
use crate::text::{
    decimal, joined, lemma_decimal_is_not_empty, lemma_joined_push, push_decimal, push_tenths,
    push_thousandths, tenths_text, thousandths_text,
};
use crate::widget::{Widget, WidgetKind, WidgetView, texts};

verus! {

/// A vector of the generated program: `x` and `y` in tenths of a point.
pub open spec fn vec2_text(x: int, y: int) -> Seq<char> {
    "egui::vec2("@ + tenths_text(x) + ","@ + tenths_text(y) + ")"@
}

fn push_vec2(out: &mut String, x: i64, y: i64)
    ensures
        final(out)@ == old(out)@ + vec2_text(x as int, y as int),
{
    out.append("egui::vec2(");
    push_tenths(out, x);
    out.append(",");
    push_tenths(out, y);
    out.append(")");
    assert(out@ =~= old(out)@ + vec2_text(x as int, y as int));
}

/// One item of a list control as an expression of the generated program.
pub open spec fn item_text(item: Seq<char>) -> Seq<char> {
    string_literal(item) + ".to_string()"@
}

/// The items of a list control, separated by commas. A control without
/// items gets the one item `Item`.
pub open spec fn items_text(items: Seq<Seq<char>>) -> Seq<char> {
    if items.len() == 0 {
        "\"Item\".to_string()"@
    } else {
        joined(items.map_values(|item: Seq<char>| item_text(item)), ", "@)
    }
}

fn items_literal(items: &Vec<String>) -> (s: String)
    ensures
        s@ == items_text(texts(items@)),
{
    if items.len() == 0 {
        return String::from_str("\"Item\".to_string()");
    }
    let ghost each = |item: Seq<char>| item_text(item);
    let mut s = String::new();
    let mut i: usize = 0;
    assert(texts(items@).take(0).map_values(each) =~= Seq::<Seq<char>>::empty());
    while i < items.len()
        invariant
            i <= items.len(),
            each == (|item: Seq<char>| item_text(item)),
            s@ == joined(texts(items@).take(i as int).map_values(each), ", "@),
        decreases items.len() - i,
    {
        let ghost done = texts(items@).take(i as int).map_values(each);
        if i > 0 {
            s.append(", ");
        }
        let ghost mid = s@;
        push_string_literal(&mut s, items[i].as_str());
        s.append(".to_string()");
        proof {
            assert(texts(items@).take(i + 1).map_values(each) =~= done.push(
                item_text(items@[i as int]@),
            ));
            lemma_joined_push(done, item_text(items@[i as int]@), ", "@);
            assert(s@ =~= mid + item_text(items@[i as int]@));
        }
        i += 1;
    }
    assert(texts(items@).take(items@.len() as int) =~= texts(items@));
    s
}

/// The button of one tab: it selects the tab's index in the state field of
/// the tab bar, which has the name `field`.
pub open spec fn tab_text(field: Seq<char>, index: nat, tab: Seq<char>) -> Seq<char> {
    "ui.selectable_value(&mut state."@ + field + ", "@ + decimal(index) + ", "@ + string_literal(
        tab,
    ) + "); "@
}

/// The buttons of the first `count` tabs, in order.
pub open spec fn tabs_text(field: Seq<char>, tabs: Seq<Seq<char>>, count: nat) -> Seq<char>
    decreases count,
{
    if count == 0 {
        Seq::empty()
    } else {
        tabs_text(field, tabs, (count - 1) as nat) + tab_text(
            field,
            (count - 1) as nat,
            tabs[count - 1],
        )
    }
}

fn tabs(w: &Widget) -> (s: String)
    ensures
        s@ == tabs_text(state_name_text(w@), w@.props.items, w@.props.items.len()),
{
    let field = state_name(w);
    let mut s = String::new();
    let mut i: usize = 0;
    while i < w.props.items.len()
        invariant
            i <= w.props.items.len(),
            w@.props.items.len() == w.props.items.len(),
            field@ == state_name_text(w@),
            s@ == tabs_text(field@, w@.props.items, i as nat),
        decreases w.props.items.len() - i,
    {
        let ghost before = s@;
        s.append("ui.selectable_value(&mut state.");
        s.append(field.as_str());
        s.append(", ");
        push_decimal(&mut s, i as u64);
        s.append(", ");
        push_string_literal(&mut s, w.props.items[i].as_str());
        s.append("); ");
        assert(s@ =~= before + tab_text(field@, i as nat, w@.props.items[i as int]));
        i += 1;
    }
    s
}

/// The heading of a group: its title in strong type and a separator, or
/// nothing for a group without a title.
pub open spec fn group_title_text(title: Seq<char>) -> Seq<char> {
    if title.len() == 0 {
        Seq::empty()
    } else {
        "ui.strong("@ + string_literal(title) + "); ui.separator(); "@
    }
}

fn group_title(title: &str) -> (s: String)
    ensures
        s@ == group_title_text(title@),
{
    if title.is_empty() {
        String::new()
    } else {
        let mut s = String::from_str("ui.strong(");
        push_string_literal(&mut s, title);
        s.append("); ui.separator(); ");
        s
    }
}

/// The layout call of a group.
pub open spec fn layout_text(horizontal: bool) -> Seq<char> {
    if horizontal {
        "horizontal"@
    } else {
        "vertical"@
    }
}

fn layout(horizontal: bool) -> (s: &'static str)
    ensures
        s@ == layout_text(horizontal),
{
    if horizontal {
        "horizontal"
    } else {
        "vertical"
    }
}

/// The number of columns that a column layout is built with: at least one.
pub open spec fn spec_column_count(columns: usize) -> usize {
    if columns == 0 {
        1
    } else {
        columns
    }
}

#[verifier::when_used_as_spec(spec_column_count)]
pub fn column_count(columns: usize) -> (n: usize)
    ensures
        n == spec_column_count(columns),
{
    if columns == 0 {
        1
    } else {
        columns
    }
}

/// A node of a tree as an expression of the generated program.
pub open spec fn node_literal_text(node: Outline) -> Seq<char>
    decreases node, 0nat,
{
    "GenTreeNode { label: "@ + string_literal(node.label) + ".to_string(), children: "@
        + forest_literal_text(node.children) + " }"@
}

/// The expressions of a list of nodes.
pub open spec fn node_literals(nodes: Seq<Outline>) -> Seq<Seq<char>>
    decreases nodes, 1nat,
{
    Seq::new(
        nodes.len(),
        |i: int|
            if 0 <= i < nodes.len() {
                node_literal_text(nodes[i])
            } else {
                arbitrary()
            },
    )
}

/// A forest as an expression of the generated program: a vector of its
/// nodes.
pub open spec fn forest_literal_text(nodes: Seq<Outline>) -> Seq<char>
    decreases nodes, 2nat,
{
    "vec!["@ + joined(node_literals(nodes), ", "@) + "]"@
}

fn node_literal(node: &OutlineNode) -> (s: String)
    ensures
        s@ == node_literal_text(node@),
    decreases node,
{
    proof {
        lemma_node_view(*node);
    }
    let mut s = String::from_str("GenTreeNode { label: ");
    push_string_literal(&mut s, node.label.as_str());
    s.append(".to_string(), children: ");
    s.append(forest_literal(&node.children).as_str());
    s.append(" }");
    s
}

fn forest_literal(nodes: &Vec<OutlineNode>) -> (s: String)
    ensures
        s@ == forest_literal_text(forest_view(nodes@)),
    decreases nodes,
{
    let ghost all = node_literals(forest_view(nodes@));
    let mut list = String::new();
    let mut i: usize = 0;
    assert(all.take(0) =~= Seq::<Seq<char>>::empty());
    while i < nodes.len()
        invariant
            i <= nodes.len(),
            all == node_literals(forest_view(nodes@)),
            all.len() == nodes.len(),
            list@ == joined(all.take(i as int), ", "@),
        decreases nodes.len() - i,
    {
        if i > 0 {
            list.append(", ");
        }
        list.append(node_literal(&nodes[i]).as_str());
        proof {
            assert(all.take(i + 1) =~= all.take(i as int).push(all[i as int]));
            lemma_joined_push(all.take(i as int), all[i as int], ", "@);
        }
        i += 1;
    }
    assert(all.take(nodes.len() as int) =~= all);
    let mut s = String::from_str("vec![");
    s.append(list.as_str());
    s.append("]");
    s
}

/// Reads the outline of a tree from its items, with the parser that every
/// reader of such lines shares. A tree without items has no nodes.
pub fn tree_outline(items: &Vec<String>) -> (nodes: Vec<OutlineNode>)
    ensures
        forest_view(nodes@) == outline_of(texts(items@)),
{
    parse_outline(items.as_slice())
}

fn tree_literal(items: &Vec<String>) -> (s: String)
    ensures
        s@ == forest_literal_text(outline_of(texts(items@))),
{
    let nodes = tree_outline(items);
    forest_literal(&nodes)
}

/// The opening of a widget's scope, held to the widget's rectangle in the
/// docking area whose origin is `origin`.
pub open spec fn scope_open_text(w: WidgetView, origin: Seq<char>) -> Seq<char> {
    "    ui.scope_builder(egui::UiBuilder::new().max_rect(egui::Rect::from_min_size("@ + origin
        + " + "@ + vec2_text(w.pos.x as int, w.pos.y as int) + ", "@ + vec2_text(
        w.size.width as int,
        w.size.height as int,
    ) + ")), |ui| {"@
}

fn scope_open(w: &Widget, origin: &str) -> (s: String)
    ensures
        s@ == scope_open_text(w@, origin@),
{
    let mut s = String::from_str(
        "    ui.scope_builder(egui::UiBuilder::new().max_rect(egui::Rect::from_min_size(",
    );
    s.append(origin);
    s.append(" + ");
    push_vec2(&mut s, w.pos.x as i64, w.pos.y as i64);
    s.append(", ");
    push_vec2(&mut s, w.size.width as i64, w.size.height as i64);
    s.append(")), |ui| {");
    s
}

/// What stands inside a widget's scope, up to and with the end of the
/// scope: the call that builds the control of the widget's kind from the
/// widget's properties. Every free text stands as a string literal. A window
/// has no scope.
pub open spec fn scope_body_text(w: WidgetView) -> Seq<char> {
    match w.kind {
        WidgetKind::MenuButton => {
            "\n        let items = vec!["@
                + items_text(w.props.items)
                + "];\n        ui.menu_button("@
                + string_literal(w.props.text)
                + ", |ui| {\n            for (i, it) in items.iter().enumerate() { if ui.button(it).clicked() { state."@
                + state_name_text(w)
                + " = i; ui.close_kind(egui::UiKind::Menu); } }\n        });\n    });\n"@
        },
        WidgetKind::Label => {
            " ui.label("@
                + string_literal(w.props.text)
                + "); });\n"@
        },
        WidgetKind::Heading => {
            " ui.heading("@
                + string_literal(w.props.text)
                + "); });\n"@
        },
        WidgetKind::Small => {
            " ui.small("@
                + string_literal(w.props.text)
                + "); });\n"@
        },
        WidgetKind::Monospace => {
            " ui.monospace("@
                + string_literal(w.props.text)
                + "); });\n"@
        },
        WidgetKind::Button => {
            " ui.add_sized("@
                + vec2_text(w.size.width as int, w.size.height as int)
                + ", egui::Button::new("@
                + string_literal(w.props.text)
                + ")); });\n"@
        },
        WidgetKind::ImageTextButton => {
            " ui.add_sized("@
                + vec2_text(w.size.width as int, w.size.height as int)
                + ", egui::Button::new(format!(\"{}  {}\", "@
                + string_literal(w.props.icon)
                + ", "@
                + string_literal(w.props.text)
                + ")) ); });\n"@
        },
        WidgetKind::Checkbox => {
            " ui.checkbox(&mut state."@
                + state_name_text(w)
                + ", "@
                + string_literal(w.props.text)
                + "); });\n"@
        },
        WidgetKind::TextEdit => {
            " ui.add_sized("@
                + vec2_text(w.size.width as int, w.size.height as int)
                + ", egui::TextEdit::singleline(&mut state."@
                + state_name_text(w)
                + ").hint_text("@
                + string_literal(w.props.text)
                + ")); });\n"@
        },
        WidgetKind::TextArea => {
            " ui.add_sized("@
                + vec2_text(w.size.width as int, w.size.height as int)
                + ", egui::TextEdit::multiline(&mut state."@
                + state_name_text(w)
                + ").desired_rows(5) ); });\n"@
        },
        WidgetKind::Slider => {
            " ui.add_sized("@
                + vec2_text(w.size.width as int, w.size.height as int)
                + ", egui::Slider::new(&mut state."@
                + state_name_text(w)
                + ", "@
                + thousandths_text(w.props.min as int)
                + "..="@
                + thousandths_text(w.props.max as int)
                + ").text("@
                + string_literal(w.props.text)
                + ")); });\n"@
        },
        WidgetKind::ProgressBar => {
            " ui.add_sized("@
                + vec2_text(w.size.width as int, w.size.height as int)
                + ", egui::ProgressBar::new(state."@
                + state_name_text(w)
                + ").show_percentage()); });\n"@
        },
        WidgetKind::RadioGroup => {
            "\n        let items = vec!["@
                + items_text(w.props.items)
                + "];\n        for (i, it) in items.iter().enumerate() { if ui.add(egui::RadioButton::new(state."@
                + state_name_text(w)
                + " == i, it)).clicked() { state."@
                + state_name_text(w)
                + " = i; } }\n    });\n"@
        },
        WidgetKind::Link => {
            " ui.link("@
                + string_literal(w.props.text)
                + "); });\n"@
        },
        WidgetKind::Hyperlink => {
            " ui.hyperlink_to("@
                + string_literal(w.props.text)
                + ", "@
                + string_literal(w.props.url)
                + "); });\n"@
        },
        WidgetKind::SelectableLabel => {
            " if ui.add(egui::Button::selectable(state."@
                + state_name_text(w)
                + ", "@
                + string_literal(w.props.text)
                + ")).clicked() { state."@
                + state_name_text(w)
                + " = !state."@
                + state_name_text(w)
                + "; } });\n"@
        },
        WidgetKind::ComboBox => {
            "\n        let items = vec!["@
                + items_text(w.props.items)
                + "];\n        egui::ComboBox::from_id_source("@
                + decimal(w.id as nat)
                + ")\n            .width("@
                + tenths_text(w.size.width as int)
                + ")\n            .selected_text(items.get(state."@
                + state_name_text(w)
                + ").cloned().unwrap_or_else(|| \"\".to_string()))\n            .show_ui(ui, |ui| {\n                for (i, it) in items.iter().enumerate() { ui.selectable_value(&mut state."@
                + state_name_text(w)
                + ", i, it.clone()); }\n            });\n    });\n"@
        },
        WidgetKind::Separator => {
            " ui.separator(); });\n"@
        },
        WidgetKind::CollapsingHeader => {
            " egui::CollapsingHeader::new("@
                + string_literal(w.props.text)
                + ").default_open(state."@
                + state_name_text(w)
                + ").show(ui, |ui| { ui.label(\"â€¦ place your inner content here â€¦\"); }); });\n"@
        },
        WidgetKind::DatePicker => {
            " ui.horizontal(|ui| { ui.label("@
                + string_literal(w.props.text)
                + "); ui.add(DatePickerButton::new(&mut state."@
                + state_name_text(w)
                + ")); }); });\n"@
        },
        WidgetKind::AngleSelector => {
            " ui.add_sized("@
                + vec2_text(w.size.width as int, w.size.height as int)
                + ", egui::Slider::new(&mut state."@
                + state_name_text(w)
                + ", "@
                + thousandths_text(w.props.min as int)
                + "..="@
                + thousandths_text(w.props.max as int)
                + ").suffix(\"Â°\").text("@
                + string_literal(w.props.text)
                + ") ); });\n"@
        },
        WidgetKind::Password => {
            " ui.add_sized("@
                + vec2_text(w.size.width as int, w.size.height as int)
                + ", egui::TextEdit::singleline(&mut state."@
                + state_name_text(w)
                + ").password(true).hint_text(\"password\") ); });\n"@
        },
        WidgetKind::Tree => {
            " let nodes: Vec<GenTreeNode> = "@
                + forest_literal_text(outline_of(w.props.items))
                + "; egui::ScrollArea::vertical().auto_shrink([false,false]).show(ui, |ui| { gen_show_tree(ui, &nodes); }); });\n"@
        },
        WidgetKind::DragValue => {
            " ui.horizontal(|ui| { ui.label("@
                + string_literal(w.props.text)
                + "); ui.add(egui::DragValue::new(&mut state."@
                + state_name_text(w)
                + ").range("@
                + thousandths_text(w.props.min as int)
                + "..="@
                + thousandths_text(w.props.max as int)
                + ")); }); });\n"@
        },
        WidgetKind::Spinner => {
            " ui.add(egui::Spinner::new()); });\n"@
        },
        WidgetKind::ColorPicker => {
            " ui.horizontal(|ui| { ui.label("@
                + string_literal(w.props.text)
                + "); egui::color_picker::color_edit_button_srgba(ui, &mut state."@
                + state_name_text(w)
                + ", egui::color_picker::Alpha::OnlyBlend); }); });\n"@
        },
        WidgetKind::Code => {
            " egui::ScrollArea::vertical().auto_shrink([false,false]).show(ui, |ui| { ui.add(egui::TextEdit::multiline(&mut state."@
                + state_name_text(w)
                + ").code_editor().desired_width("@
                + tenths_text(w.size.width as int)
                + ").desired_rows(8)); }); });\n"@
        },
        WidgetKind::Image => {
            " ui.add(egui::Image::new("@
                + string_literal(w.props.url)
                + ").fit_to_exact_size("@
                + vec2_text(w.size.width as int, w.size.height as int)
                + ")); });\n"@
        },
        WidgetKind::Placeholder => {
            " egui::Frame::NONE.fill(egui::Color32::from_rgba_unmultiplied("@
                + decimal(w.props.color.r as nat)
                + ","@
                + decimal(w.props.color.g as nat)
                + ","@
                + decimal(w.props.color.b as nat)
                + ","@
                + decimal(w.props.color.a as nat)
                + ")).corner_radius(4.0).show(ui, |ui| { ui.set_min_size("@
                + vec2_text(w.size.width as int, w.size.height as int)
                + "); ui.centered_and_justified(|ui| ui.label("@
                + string_literal(w.props.text)
                + ")); }); });\n"@
        },
        WidgetKind::Group => {
            " egui::Frame::group(ui.style()).show(ui, |ui| { ui.set_min_size("@
                + vec2_text(w.size.width - 120, w.size.height - 120)
                + "); ui."@
                + layout_text(w.props.horizontal)
                + "(|ui| { "@
                + group_title_text(w.props.text)
                + "/* group contents */ }); }); });\n"@
        },
        WidgetKind::ScrollBox => {
            " egui::ScrollArea::both().max_width("@
                + tenths_text(w.size.width - 40)
                + ").max_height("@
                + tenths_text(w.size.height - 40)
                + ").auto_shrink([false,false]).show(ui, |ui| { ui.label("@
                + string_literal(w.props.text)
                + "); }); });\n"@
        },
        WidgetKind::TabBar => {
            " ui.horizontal(|ui| { "@
                + tabs_text(state_name_text(w), w.props.items, w.props.items.len())
                + " }); });\n"@
        },
        WidgetKind::Columns => {
            " ui.columns("@
                + decimal(column_count(w.props.columns) as nat)
                + ", |columns| { for col in columns.iter_mut() { col.label("@
                + string_literal(w.props.text)
                + "); } }); });\n"@
        },
        WidgetKind::Window => Seq::empty(),
    }
}

fn scope_body(w: &Widget) -> (s: String)
    ensures
        s@ == scope_body_text(w@),
{
    match w.kind {
        WidgetKind::MenuButton => {
            let mut s = String::from_str("\n        let items = vec![");
            s.append(items_literal(&w.props.items).as_str());
            s.append("];\n        ui.menu_button(");
            push_string_literal(&mut s, w.props.text.as_str());
            s.append(", |ui| {\n            for (i, it) in items.iter().enumerate() { if ui.button(it).clicked() { state.");
            s.append(state_name(w).as_str());
            s.append(" = i; ui.close_kind(egui::UiKind::Menu); } }\n        });\n    });\n");
            s
        },
        WidgetKind::Label => {
            let mut s = String::from_str(" ui.label(");
            push_string_literal(&mut s, w.props.text.as_str());
            s.append("); });\n");
            s
        },
        WidgetKind::Heading => {
            let mut s = String::from_str(" ui.heading(");
            push_string_literal(&mut s, w.props.text.as_str());
            s.append("); });\n");
            s
        },
        WidgetKind::Small => {
            let mut s = String::from_str(" ui.small(");
            push_string_literal(&mut s, w.props.text.as_str());
            s.append("); });\n");
            s
        },
        WidgetKind::Monospace => {
            let mut s = String::from_str(" ui.monospace(");
            push_string_literal(&mut s, w.props.text.as_str());
            s.append("); });\n");
            s
        },
        WidgetKind::Button => {
            let mut s = String::from_str(" ui.add_sized(");
            push_vec2(&mut s, w.size.width as i64, w.size.height as i64);
            s.append(", egui::Button::new(");
            push_string_literal(&mut s, w.props.text.as_str());
            s.append(")); });\n");
            s
        },
        WidgetKind::ImageTextButton => {
            let mut s = String::from_str(" ui.add_sized(");
            push_vec2(&mut s, w.size.width as i64, w.size.height as i64);
            s.append(", egui::Button::new(format!(\"{}  {}\", ");
            push_string_literal(&mut s, w.props.icon.as_str());
            s.append(", ");
            push_string_literal(&mut s, w.props.text.as_str());
            s.append(")) ); });\n");
            s
        },
        WidgetKind::Checkbox => {
            let mut s = String::from_str(" ui.checkbox(&mut state.");
            s.append(state_name(w).as_str());
            s.append(", ");
            push_string_literal(&mut s, w.props.text.as_str());
            s.append("); });\n");
            s
        },
        WidgetKind::TextEdit => {
            let mut s = String::from_str(" ui.add_sized(");
            push_vec2(&mut s, w.size.width as i64, w.size.height as i64);
            s.append(", egui::TextEdit::singleline(&mut state.");
            s.append(state_name(w).as_str());
            s.append(").hint_text(");
            push_string_literal(&mut s, w.props.text.as_str());
            s.append(")); });\n");
            s
        },
        WidgetKind::TextArea => {
            let mut s = String::from_str(" ui.add_sized(");
            push_vec2(&mut s, w.size.width as i64, w.size.height as i64);
            s.append(", egui::TextEdit::multiline(&mut state.");
            s.append(state_name(w).as_str());
            s.append(").desired_rows(5) ); });\n");
            s
        },
        WidgetKind::Slider => {
            let mut s = String::from_str(" ui.add_sized(");
            push_vec2(&mut s, w.size.width as i64, w.size.height as i64);
            s.append(", egui::Slider::new(&mut state.");
            s.append(state_name(w).as_str());
            s.append(", ");
            push_thousandths(&mut s, w.props.min as i64);
            s.append("..=");
            push_thousandths(&mut s, w.props.max as i64);
            s.append(").text(");
            push_string_literal(&mut s, w.props.text.as_str());
            s.append(")); });\n");
            s
        },
        WidgetKind::ProgressBar => {
            let mut s = String::from_str(" ui.add_sized(");
            push_vec2(&mut s, w.size.width as i64, w.size.height as i64);
            s.append(", egui::ProgressBar::new(state.");
            s.append(state_name(w).as_str());
            s.append(").show_percentage()); });\n");
            s
        },
        WidgetKind::RadioGroup => {
            let mut s = String::from_str("\n        let items = vec![");
            s.append(items_literal(&w.props.items).as_str());
            s.append("];\n        for (i, it) in items.iter().enumerate() { if ui.add(egui::RadioButton::new(state.");
            s.append(state_name(w).as_str());
            s.append(" == i, it)).clicked() { state.");
            s.append(state_name(w).as_str());
            s.append(" = i; } }\n    });\n");
            s
        },
        WidgetKind::Link => {
            let mut s = String::from_str(" ui.link(");
            push_string_literal(&mut s, w.props.text.as_str());
            s.append("); });\n");
            s
        },
        WidgetKind::Hyperlink => {
            let mut s = String::from_str(" ui.hyperlink_to(");
            push_string_literal(&mut s, w.props.text.as_str());
            s.append(", ");
            push_string_literal(&mut s, w.props.url.as_str());
            s.append("); });\n");
            s
        },
        WidgetKind::SelectableLabel => {
            let mut s = String::from_str(" if ui.add(egui::Button::selectable(state.");
            s.append(state_name(w).as_str());
            s.append(", ");
            push_string_literal(&mut s, w.props.text.as_str());
            s.append(")).clicked() { state.");
            s.append(state_name(w).as_str());
            s.append(" = !state.");
            s.append(state_name(w).as_str());
            s.append("; } });\n");
            s
        },
        WidgetKind::ComboBox => {
            let mut s = String::from_str("\n        let items = vec![");
            s.append(items_literal(&w.props.items).as_str());
            s.append("];\n        egui::ComboBox::from_id_source(");
            push_decimal(&mut s, w.id.value());
            s.append(")\n            .width(");
            push_tenths(&mut s, w.size.width as i64);
            s.append(")\n            .selected_text(items.get(state.");
            s.append(state_name(w).as_str());
            s.append(").cloned().unwrap_or_else(|| \"\".to_string()))\n            .show_ui(ui, |ui| {\n                for (i, it) in items.iter().enumerate() { ui.selectable_value(&mut state.");
            s.append(state_name(w).as_str());
            s.append(", i, it.clone()); }\n            });\n    });\n");
            s
        },
        WidgetKind::Separator => {
            let mut s = String::from_str(" ui.separator(); });\n");
            s
        },
        WidgetKind::CollapsingHeader => {
            let mut s = String::from_str(" egui::CollapsingHeader::new(");
            push_string_literal(&mut s, w.props.text.as_str());
            s.append(").default_open(state.");
            s.append(state_name(w).as_str());
            s.append(").show(ui, |ui| { ui.label(\"â€¦ place your inner content here â€¦\"); }); });\n");
            s
        },
        WidgetKind::DatePicker => {
            let mut s = String::from_str(" ui.horizontal(|ui| { ui.label(");
            push_string_literal(&mut s, w.props.text.as_str());
            s.append("); ui.add(DatePickerButton::new(&mut state.");
            s.append(state_name(w).as_str());
            s.append(")); }); });\n");
            s
        },
        WidgetKind::AngleSelector => {
            let mut s = String::from_str(" ui.add_sized(");
            push_vec2(&mut s, w.size.width as i64, w.size.height as i64);
            s.append(", egui::Slider::new(&mut state.");
            s.append(state_name(w).as_str());
            s.append(", ");
            push_thousandths(&mut s, w.props.min as i64);
            s.append("..=");
            push_thousandths(&mut s, w.props.max as i64);
            s.append(").suffix(\"Â°\").text(");
            push_string_literal(&mut s, w.props.text.as_str());
            s.append(") ); });\n");
            s
        },
        WidgetKind::Password => {
            let mut s = String::from_str(" ui.add_sized(");
            push_vec2(&mut s, w.size.width as i64, w.size.height as i64);
            s.append(", egui::TextEdit::singleline(&mut state.");
            s.append(state_name(w).as_str());
            s.append(").password(true).hint_text(\"password\") ); });\n");
            s
        },
        WidgetKind::Tree => {
            let mut s = String::from_str(" let nodes: Vec<GenTreeNode> = ");
            s.append(tree_literal(&w.props.items).as_str());
            s.append("; egui::ScrollArea::vertical().auto_shrink([false,false]).show(ui, |ui| { gen_show_tree(ui, &nodes); }); });\n");
            s
        },
        WidgetKind::DragValue => {
            let mut s = String::from_str(" ui.horizontal(|ui| { ui.label(");
            push_string_literal(&mut s, w.props.text.as_str());
            s.append("); ui.add(egui::DragValue::new(&mut state.");
            s.append(state_name(w).as_str());
            s.append(").range(");
            push_thousandths(&mut s, w.props.min as i64);
            s.append("..=");
            push_thousandths(&mut s, w.props.max as i64);
            s.append(")); }); });\n");
            s
        },
        WidgetKind::Spinner => {
            let mut s = String::from_str(" ui.add(egui::Spinner::new()); });\n");
            s
        },
        WidgetKind::ColorPicker => {
            let mut s = String::from_str(" ui.horizontal(|ui| { ui.label(");
            push_string_literal(&mut s, w.props.text.as_str());
            s.append("); egui::color_picker::color_edit_button_srgba(ui, &mut state.");
            s.append(state_name(w).as_str());
            s.append(", egui::color_picker::Alpha::OnlyBlend); }); });\n");
            s
        },
        WidgetKind::Code => {
            let mut s = String::from_str(" egui::ScrollArea::vertical().auto_shrink([false,false]).show(ui, |ui| { ui.add(egui::TextEdit::multiline(&mut state.");
            s.append(state_name(w).as_str());
            s.append(").code_editor().desired_width(");
            push_tenths(&mut s, w.size.width as i64);
            s.append(").desired_rows(8)); }); });\n");
            s
        },
        WidgetKind::Image => {
            let mut s = String::from_str(" ui.add(egui::Image::new(");
            push_string_literal(&mut s, w.props.url.as_str());
            s.append(").fit_to_exact_size(");
            push_vec2(&mut s, w.size.width as i64, w.size.height as i64);
            s.append(")); });\n");
            s
        },
        WidgetKind::Placeholder => {
            let mut s = String::from_str(" egui::Frame::NONE.fill(egui::Color32::from_rgba_unmultiplied(");
            push_decimal(&mut s, w.props.color.r as u64);
            s.append(",");
            push_decimal(&mut s, w.props.color.g as u64);
            s.append(",");
            push_decimal(&mut s, w.props.color.b as u64);
            s.append(",");
            push_decimal(&mut s, w.props.color.a as u64);
            s.append(")).corner_radius(4.0).show(ui, |ui| { ui.set_min_size(");
            push_vec2(&mut s, w.size.width as i64, w.size.height as i64);
            s.append("); ui.centered_and_justified(|ui| ui.label(");
            push_string_literal(&mut s, w.props.text.as_str());
            s.append(")); }); });\n");
            s
        },
        WidgetKind::Group => {
            let mut s = String::from_str(" egui::Frame::group(ui.style()).show(ui, |ui| { ui.set_min_size(");
            push_vec2(&mut s, w.size.width as i64 - 120, w.size.height as i64 - 120);
            s.append("); ui.");
            s.append(layout(w.props.horizontal));
            s.append("(|ui| { ");
            s.append(group_title(w.props.text.as_str()).as_str());
            s.append("/* group contents */ }); }); });\n");
            s
        },
        WidgetKind::ScrollBox => {
            let mut s = String::from_str(" egui::ScrollArea::both().max_width(");
            push_tenths(&mut s, w.size.width as i64 - 40);
            s.append(").max_height(");
            push_tenths(&mut s, w.size.height as i64 - 40);
            s.append(").auto_shrink([false,false]).show(ui, |ui| { ui.label(");
            push_string_literal(&mut s, w.props.text.as_str());
            s.append("); }); });\n");
            s
        },
        WidgetKind::TabBar => {
            let mut s = String::from_str(" ui.horizontal(|ui| { ");
            s.append(tabs(w).as_str());
            s.append(" }); });\n");
            s
        },
        WidgetKind::Columns => {
            let mut s = String::from_str(" ui.columns(");
            push_decimal(&mut s, column_count(w.props.columns) as u64);
            s.append(", |columns| { for col in columns.iter_mut() { col.label(");
            push_string_literal(&mut s, w.props.text.as_str());
            s.append("); } }); });\n");
            s
        },
        WidgetKind::Window => String::new(),
    }
}

/// The call that places a window at the widget's position, with the
/// widget's size and the widget's text as its title.
pub open spec fn window_text(w: WidgetView, origin: Seq<char>) -> Seq<char> {
    "    egui::Window::new("@
        + string_literal(w.props.text)
        + ").default_pos("@
        + origin
        + " + "@
        + vec2_text(w.pos.x as int, w.pos.y as int)
        + ").default_size("@
        + vec2_text(w.size.width as int, w.size.height as int)
        + ").open(&mut state."@
        + state_name_text(w)
        + ").show(ctx, |ui| { /* window contents */ });\n"@
}

fn window(w: &Widget, origin: &str) -> (s: String)
    ensures
        s@ == window_text(w@, origin@),
{
    let mut s = String::from_str("    egui::Window::new(");
    push_string_literal(&mut s, w.props.text.as_str());
    s.append(").default_pos(");
    s.append(origin);
    s.append(" + ");
    push_vec2(&mut s, w.pos.x as i64, w.pos.y as i64);
    s.append(").default_size(");
    push_vec2(&mut s, w.size.width as i64, w.size.height as i64);
    s.append(").open(&mut state.");
    s.append(state_name(w).as_str());
    s.append(").show(ctx, |ui| { /* window contents */ });\n");
    s
}

/// The code that builds one widget: a window by its own call, any other
/// widget inside its scope.
pub open spec fn widget_block_text(w: WidgetView, origin: Seq<char>) -> Seq<char> {
    if w.kind == WidgetKind::Window {
        window_text(w, origin)
    } else {
        scope_open_text(w, origin) + scope_body_text(w)
    }
}

/// A tree without items is built from the empty forest: its literal names
/// no node.
pub proof fn lemma_tree_without_items(w: WidgetView)
    requires
        w.kind == WidgetKind::Tree,
        w.props.items.len() == 0,
    ensures
        forest_literal_text(outline_of(w.props.items)) == "vec!["@ + "]"@,
{
    lemma_outline_of_nothing();
    assert(w.props.items =~= Seq::<Seq<char>>::empty());
    let nodes = Seq::<Outline>::empty();
    assert(node_literals(nodes) =~= Seq::<Seq<char>>::empty());
    assert("vec!["@ + joined(Seq::<Seq<char>>::empty(), ", "@) + "]"@ =~= "vec!["@ + "]"@);
}

/// Every widget has a block: the code that builds it is not empty.
pub proof fn lemma_widget_block_is_not_empty(w: WidgetView, origin: Seq<char>)
    ensures
        widget_block_text(w, origin).len() > 0,
{
    lemma_decimal_is_not_empty(w.id as nat);
    let m = if w.pos.x < 0 { -(w.pos.x as int) } else { w.pos.x as int };
    lemma_decimal_is_not_empty((m / 10) as nat);
}

/// The code that builds `w` in the docking area whose origin is `origin`.
pub fn widget_block(w: &Widget, origin: &str) -> (s: String)
    ensures
        s@ == widget_block_text(w@, origin@),
{
    match w.kind {
        WidgetKind::Window => window(w, origin),
        _ => {
            let mut s = scope_open(w, origin);
            s.append(scope_body(w).as_str());
            s
        },
    }
}

} // verus!
