//! The catalogue: the size and the properties that a widget of each kind
//! starts with.

use vstd::prelude::*;
use crate::widget::{PropsView, Rgba, Size, WidgetKind, WidgetProps, texts};

verus! {

/// The properties that every kind starts from, before the fields that mean
/// something to the kind are set.
pub open spec fn base_props() -> PropsView {
    PropsView {
        text: "Label"@,
        checked: false,
        value: 500,
        min: 0,
        max: 1000,
        items: Seq::empty(),
        selected: 0,
        url: "https://example.com"@,
        year: 2024,
        month: 1,
        day: 1,
        icon: "🖼️"@,
        color: Rgba { r: 100, g: 149, b: 237, a: 255 },
        tooltip: Seq::empty(),
        horizontal: false,
        enabled: true,
        columns: 2,
    }
}

impl Default for WidgetProps {
    fn default() -> (props: Self)
        ensures
            props@ == base_props(),
    {
        let props = WidgetProps {
            text: String::from_str("Label"),
            checked: false,
            value: 500,
            min: 0,
            max: 1000,
            items: Vec::new(),
            selected: 0,
            url: String::from_str("https://example.com"),
            year: 2024,
            month: 1,
            day: 1,
            icon: String::from_str("🖼️"),
            color: Rgba { r: 100, g: 149, b: 237, a: 255 },
            tooltip: String::new(),
            horizontal: false,
            enabled: true,
            columns: 2,
        };
        assert(props@.items =~= Seq::empty());
        props
    }
}

fn push_text(list: &mut Vec<String>, s: &str)
    ensures
        texts(final(list)@) == texts(old(list)@).push(s@),
{
    list.push(String::from_str(s));
    assert(texts(list@) =~= texts(old(list)@).push(s@));
}

fn three_items(a: &str, b: &str, c: &str) -> (list: Vec<String>)
    ensures
        texts(list@) == seq![a@, b@, c@],
{
    let mut list: Vec<String> = Vec::new();
    assert(texts(list@) =~= Seq::empty());
    push_text(&mut list, a);
    push_text(&mut list, b);
    push_text(&mut list, c);
    list
}

impl WidgetKind {
    /// The size of a new widget of this kind, in tenths of a point.
    pub open spec fn spec_default_size(self) -> Size {
        match self {
            WidgetKind::MenuButton => Size { width: 1800, height: 280 },
            WidgetKind::Label => Size { width: 1400, height: 240 },
            WidgetKind::Heading => Size { width: 2000, height: 320 },
            WidgetKind::Small => Size { width: 1200, height: 200 },
            WidgetKind::Monospace => Size { width: 1400, height: 200 },
            WidgetKind::Button => Size { width: 1600, height: 320 },
            WidgetKind::ImageTextButton => Size { width: 2000, height: 360 },
            WidgetKind::Checkbox => Size { width: 1600, height: 280 },
            WidgetKind::TextEdit => Size { width: 2200, height: 360 },
            WidgetKind::TextArea => Size { width: 2800, height: 1200 },
            WidgetKind::Slider => Size { width: 2200, height: 240 },
            WidgetKind::ProgressBar => Size { width: 2200, height: 200 },
            WidgetKind::RadioGroup => Size { width: 2000, height: 800 },
            WidgetKind::Link => Size { width: 1600, height: 200 },
            WidgetKind::Hyperlink => Size { width: 2000, height: 200 },
            WidgetKind::SelectableLabel => Size { width: 1800, height: 240 },
            WidgetKind::ComboBox => Size { width: 2200, height: 280 },
            WidgetKind::Separator => Size { width: 2200, height: 80 },
            WidgetKind::CollapsingHeader => Size { width: 2600, height: 800 },
            WidgetKind::DatePicker => Size { width: 2000, height: 280 },
            WidgetKind::AngleSelector => Size { width: 2200, height: 280 },
            WidgetKind::Password => Size { width: 2200, height: 360 },
            WidgetKind::Tree => Size { width: 2600, height: 2000 },
            WidgetKind::DragValue => Size { width: 1800, height: 240 },
            WidgetKind::Spinner => Size { width: 320, height: 320 },
            WidgetKind::ColorPicker => Size { width: 2000, height: 280 },
            WidgetKind::Code => Size { width: 3000, height: 1500 },
            WidgetKind::Image => Size { width: 1500, height: 1500 },
            WidgetKind::Placeholder => Size { width: 2000, height: 1000 },
            WidgetKind::Group => Size { width: 2500, height: 1500 },
            WidgetKind::ScrollBox => Size { width: 2000, height: 1500 },
            WidgetKind::TabBar => Size { width: 3000, height: 320 },
            WidgetKind::Columns => Size { width: 3000, height: 1200 },
            WidgetKind::Window => Size { width: 2800, height: 1800 },
        }
    }

    /// The size of a new widget of this kind. Width and height are positive.
    pub fn default_size(&self) -> (size: Size)
        ensures
            size == self.spec_default_size(),
            size.width > 0,
            size.height > 0,
    {
        match self {
            WidgetKind::MenuButton => Size { width: 1800, height: 280 },
            WidgetKind::Label => Size { width: 1400, height: 240 },
            WidgetKind::Heading => Size { width: 2000, height: 320 },
            WidgetKind::Small => Size { width: 1200, height: 200 },
            WidgetKind::Monospace => Size { width: 1400, height: 200 },
            WidgetKind::Button => Size { width: 1600, height: 320 },
            WidgetKind::ImageTextButton => Size { width: 2000, height: 360 },
            WidgetKind::Checkbox => Size { width: 1600, height: 280 },
            WidgetKind::TextEdit => Size { width: 2200, height: 360 },
            WidgetKind::TextArea => Size { width: 2800, height: 1200 },
            WidgetKind::Slider => Size { width: 2200, height: 240 },
            WidgetKind::ProgressBar => Size { width: 2200, height: 200 },
            WidgetKind::RadioGroup => Size { width: 2000, height: 800 },
            WidgetKind::Link => Size { width: 1600, height: 200 },
            WidgetKind::Hyperlink => Size { width: 2000, height: 200 },
            WidgetKind::SelectableLabel => Size { width: 1800, height: 240 },
            WidgetKind::ComboBox => Size { width: 2200, height: 280 },
            WidgetKind::Separator => Size { width: 2200, height: 80 },
            WidgetKind::CollapsingHeader => Size { width: 2600, height: 800 },
            WidgetKind::DatePicker => Size { width: 2000, height: 280 },
            WidgetKind::AngleSelector => Size { width: 2200, height: 280 },
            WidgetKind::Password => Size { width: 2200, height: 360 },
            WidgetKind::Tree => Size { width: 2600, height: 2000 },
            WidgetKind::DragValue => Size { width: 1800, height: 240 },
            WidgetKind::Spinner => Size { width: 320, height: 320 },
            WidgetKind::ColorPicker => Size { width: 2000, height: 280 },
            WidgetKind::Code => Size { width: 3000, height: 1500 },
            WidgetKind::Image => Size { width: 1500, height: 1500 },
            WidgetKind::Placeholder => Size { width: 2000, height: 1000 },
            WidgetKind::Group => Size { width: 2500, height: 1500 },
            WidgetKind::ScrollBox => Size { width: 2000, height: 1500 },
            WidgetKind::TabBar => Size { width: 3000, height: 320 },
            WidgetKind::Columns => Size { width: 3000, height: 1200 },
            WidgetKind::Window => Size { width: 2800, height: 1800 },
        }
    }

    /// The properties of a new widget of this kind: the common starting
    /// values, with the fields that the kind reads set for it.
    pub open spec fn spec_default_props(self) -> PropsView {
        let base = base_props();
        match self {
            WidgetKind::MenuButton => PropsView {
                text: "Menu"@,
                items: seq![
                    "First"@,
                    "Second"@,
                    "Third"@,
                ],
                selected: 0,
                ..base
            },
            WidgetKind::Label => PropsView {
                text: "Label"@,
                ..base
            },
            WidgetKind::Heading => PropsView {
                text: "Heading"@,
                ..base
            },
            WidgetKind::Small => PropsView {
                text: "Small text"@,
                ..base
            },
            WidgetKind::Monospace => PropsView {
                text: "code_value"@,
                ..base
            },
            WidgetKind::Button => PropsView {
                text: "Button"@,
                ..base
            },
            WidgetKind::ImageTextButton => PropsView {
                text: "Button"@,
                icon: "🖼️"@,
                ..base
            },
            WidgetKind::Checkbox => PropsView {
                text: "Checkbox"@,
                ..base
            },
            WidgetKind::TextEdit => PropsView {
                text: "Type here"@,
                ..base
            },
            WidgetKind::TextArea => PropsView {
                text: "Multi-line\ntext here"@,
                ..base
            },
            WidgetKind::Slider => PropsView {
                text: "Value"@,
                value: 42000,
                min: 0,
                max: 100000,
                ..base
            },
            WidgetKind::ProgressBar => PropsView {
                text: ""@,
                value: 250,
                min: 0,
                max: 1000,
                ..base
            },
            WidgetKind::RadioGroup => PropsView {
                text: "Radio Group"@,
                items: seq![
                    "Option A"@,
                    "Option B"@,
                    "Option C"@,
                ],
                selected: 0,
                ..base
            },
            WidgetKind::Link => PropsView {
                text: "Link text"@,
                ..base
            },
            WidgetKind::Hyperlink => PropsView {
                text: "Open website"@,
                url: "https://example.com"@,
                ..base
            },
            WidgetKind::SelectableLabel => PropsView {
                text: "Selectable"@,
                ..base
            },
            WidgetKind::ComboBox => PropsView {
                text: "Choose one"@,
                items: seq![
                    "Red"@,
                    "Green"@,
                    "Blue"@,
                ],
                selected: 0,
                ..base
            },
            WidgetKind::Separator => base,
            WidgetKind::CollapsingHeader => PropsView {
                text: "Section"@,
                checked: true,
                ..base
            },
            WidgetKind::DatePicker => PropsView {
                text: "Pick a date"@,
                year: 2025,
                month: 1,
                day: 1,
                ..base
            },
            WidgetKind::AngleSelector => PropsView {
                text: "Angle (deg)"@,
                value: 45000,
                min: 0,
                max: 360000,
                ..base
            },
            WidgetKind::Password => PropsView {
                text: "password"@,
                ..base
            },
            WidgetKind::Tree => PropsView {
                text: "Tree"@,
                items: seq![
                    "Animals"@,
                    "  Mammals"@,
                    "    Dogs"@,
                    "    Cats"@,
                    "  Birds"@,
                    "Plants"@,
                    "  Trees"@,
                    "  Flowers"@,
                ],
                selected: 0,
                ..base
            },
            WidgetKind::DragValue => PropsView {
                text: "Value"@,
                value: 42000,
                min: 0,
                max: 100000,
                ..base
            },
            WidgetKind::Spinner => base,
            WidgetKind::ColorPicker => PropsView {
                text: "Color"@,
                color: Rgba { r: 100, g: 149, b: 237, a: 255 },
                ..base
            },
            WidgetKind::Code => PropsView {
                text: "fn main() {\n    println!(\"Hello\");\n}"@,
                ..base
            },
            WidgetKind::Image => PropsView {
                text: "image.png"@,
                url: "file://image.png"@,
                ..base
            },
            WidgetKind::Placeholder => PropsView {
                text: "Placeholder"@,
                color: Rgba { r: 128, g: 128, b: 128, a: 128 },
                ..base
            },
            WidgetKind::Group => PropsView {
                text: "Group"@,
                ..base
            },
            WidgetKind::ScrollBox => PropsView {
                text: "Scroll content here..."@,
                ..base
            },
            WidgetKind::TabBar => PropsView {
                items: seq![
                    "Tab 1"@,
                    "Tab 2"@,
                    "Tab 3"@,
                ],
                selected: 0,
                ..base
            },
            WidgetKind::Columns => PropsView {
                text: "Column content"@,
                columns: 2,
                ..base
            },
            WidgetKind::Window => PropsView {
                text: "Window Title"@,
                ..base
            },
        }
    }

    /// The properties of a new widget of this kind. Where the kind has
    /// items, the selected index lies within them.
    pub fn default_props(&self) -> (props: WidgetProps)
        ensures
            props@ == self.spec_default_props(),
            props@.items.len() > 0 ==> props@.selected < props@.items.len(),
    {
        let mut props = WidgetProps::default();
        match self {
            WidgetKind::MenuButton => {
                props.text = String::from_str("Menu");
                props.items = three_items("First", "Second", "Third");
                props.selected = 0;
            },
            WidgetKind::Label => {
                props.text = String::from_str("Label");
            },
            WidgetKind::Heading => {
                props.text = String::from_str("Heading");
            },
            WidgetKind::Small => {
                props.text = String::from_str("Small text");
            },
            WidgetKind::Monospace => {
                props.text = String::from_str("code_value");
            },
            WidgetKind::Button => {
                props.text = String::from_str("Button");
            },
            WidgetKind::ImageTextButton => {
                props.text = String::from_str("Button");
                props.icon = String::from_str("🖼️");
            },
            WidgetKind::Checkbox => {
                props.text = String::from_str("Checkbox");
            },
            WidgetKind::TextEdit => {
                props.text = String::from_str("Type here");
            },
            WidgetKind::TextArea => {
                props.text = String::from_str("Multi-line\ntext here");
            },
            WidgetKind::Slider => {
                props.text = String::from_str("Value");
                props.value = 42000;
                props.min = 0;
                props.max = 100000;
            },
            WidgetKind::ProgressBar => {
                props.text = String::from_str("");
                props.value = 250;
                props.min = 0;
                props.max = 1000;
            },
            WidgetKind::RadioGroup => {
                props.text = String::from_str("Radio Group");
                props.items = three_items("Option A", "Option B", "Option C");
                props.selected = 0;
            },
            WidgetKind::Link => {
                props.text = String::from_str("Link text");
            },
            WidgetKind::Hyperlink => {
                props.text = String::from_str("Open website");
                props.url = String::from_str("https://example.com");
            },
            WidgetKind::SelectableLabel => {
                props.text = String::from_str("Selectable");
            },
            WidgetKind::ComboBox => {
                props.text = String::from_str("Choose one");
                props.items = three_items("Red", "Green", "Blue");
                props.selected = 0;
            },
            WidgetKind::Separator => {},
            WidgetKind::CollapsingHeader => {
                props.text = String::from_str("Section");
                props.checked = true;
            },
            WidgetKind::DatePicker => {
                props.text = String::from_str("Pick a date");
                props.year = 2025;
                props.month = 1;
                props.day = 1;
            },
            WidgetKind::AngleSelector => {
                props.text = String::from_str("Angle (deg)");
                props.value = 45000;
                props.min = 0;
                props.max = 360000;
            },
            WidgetKind::Password => {
                props.text = String::from_str("password");
            },
            WidgetKind::Tree => {
                props.text = String::from_str("Tree");
                let mut lines: Vec<String> = Vec::new();
                assert(texts(lines@) =~= Seq::empty());
                push_text(&mut lines, "Animals");
                push_text(&mut lines, "  Mammals");
                push_text(&mut lines, "    Dogs");
                push_text(&mut lines, "    Cats");
                push_text(&mut lines, "  Birds");
                push_text(&mut lines, "Plants");
                push_text(&mut lines, "  Trees");
                push_text(&mut lines, "  Flowers");
                props.items = lines;
                props.selected = 0;
            },
            WidgetKind::DragValue => {
                props.text = String::from_str("Value");
                props.value = 42000;
                props.min = 0;
                props.max = 100000;
            },
            WidgetKind::Spinner => {},
            WidgetKind::ColorPicker => {
                props.text = String::from_str("Color");
                props.color = Rgba { r: 100, g: 149, b: 237, a: 255 };
            },
            WidgetKind::Code => {
                props.text = String::from_str("fn main() {\n    println!(\"Hello\");\n}");
            },
            WidgetKind::Image => {
                props.text = String::from_str("image.png");
                props.url = String::from_str("file://image.png");
            },
            WidgetKind::Placeholder => {
                props.text = String::from_str("Placeholder");
                props.color = Rgba { r: 128, g: 128, b: 128, a: 128 };
            },
            WidgetKind::Group => {
                props.text = String::from_str("Group");
            },
            WidgetKind::ScrollBox => {
                props.text = String::from_str("Scroll content here...");
            },
            WidgetKind::TabBar => {
                props.items = three_items("Tab 1", "Tab 2", "Tab 3");
                props.selected = 0;
            },
            WidgetKind::Columns => {
                props.text = String::from_str("Column content");
                props.columns = 2;
            },
            WidgetKind::Window => {
                props.text = String::from_str("Window Title");
            },
        }
        assert(props@.items =~= self.spec_default_props().items);
        props
    }
}

/// Every kind starts with a positive width and a positive height.
pub proof fn lemma_default_size_positive(kind: WidgetKind)
    ensures
        kind.spec_default_size().width > 0,
        kind.spec_default_size().height > 0,
{
}

/// Where a kind starts with items, the index that it starts with selects
/// one of them.
pub proof fn lemma_default_selection_valid(kind: WidgetKind)
    ensures
        kind.spec_default_props().items.len() > 0 ==> kind.spec_default_props().selected
            < kind.spec_default_props().items.len(),
{
}

} // verus!
