use rad_builder::escape;
use rad_builder::widget::{
    z_behind, z_in_front, DockArea, Rgba, WidgetId, WidgetKind, WidgetProps,
};

const ALL_KINDS: [WidgetKind; 34] = [
    WidgetKind::MenuButton,
    WidgetKind::Label,
    WidgetKind::Heading,
    WidgetKind::Small,
    WidgetKind::Monospace,
    WidgetKind::Button,
    WidgetKind::ImageTextButton,
    WidgetKind::Checkbox,
    WidgetKind::TextEdit,
    WidgetKind::TextArea,
    WidgetKind::Slider,
    WidgetKind::ProgressBar,
    WidgetKind::RadioGroup,
    WidgetKind::Link,
    WidgetKind::Hyperlink,
    WidgetKind::SelectableLabel,
    WidgetKind::ComboBox,
    WidgetKind::Separator,
    WidgetKind::CollapsingHeader,
    WidgetKind::DatePicker,
    WidgetKind::AngleSelector,
    WidgetKind::Password,
    WidgetKind::Tree,
    WidgetKind::DragValue,
    WidgetKind::Spinner,
    WidgetKind::ColorPicker,
    WidgetKind::Code,
    WidgetKind::Image,
    WidgetKind::Placeholder,
    WidgetKind::Group,
    WidgetKind::ScrollBox,
    WidgetKind::TabBar,
    WidgetKind::Columns,
    WidgetKind::Window,
];

#[test]
fn test_escape() {
    // Test basic strings
    assert_eq!(escape("hello"), "hello");

    // Test backslash escaping
    assert_eq!(escape("path\\to\\file"), "path\\\\to\\\\file");

    // Test quote escaping
    assert_eq!(escape("say \"hello\""), "say \\\"hello\\\"");

    // Test combined
    assert_eq!(escape("c:\\path\\\"file\""), "c:\\\\path\\\\\\\"file\\\"");
}

#[test]
fn test_widget_kind_default_size() {
    // All widget kinds should return positive dimensions
    let kinds = [
        WidgetKind::Label,
        WidgetKind::Button,
        WidgetKind::Checkbox,
        WidgetKind::TextEdit,
        WidgetKind::Slider,
        WidgetKind::ProgressBar,
        WidgetKind::RadioGroup,
        WidgetKind::ComboBox,
        WidgetKind::Separator,
        WidgetKind::Spinner,
        WidgetKind::ColorPicker,
        WidgetKind::Group,
        WidgetKind::Window,
    ];

    for kind in kinds {
        let size = kind.default_size();
        assert!(size.width > 0, "{:?} should have positive width", kind);
        assert!(size.height > 0, "{:?} should have positive height", kind);
    }
}

#[test]
fn test_widget_kind_default_props() {
    // Test that default props are reasonable
    let label_props = WidgetKind::Label.default_props();
    assert_eq!(label_props.text, "Label");

    let button_props = WidgetKind::Button.default_props();
    assert_eq!(button_props.text, "Button");

    let slider_props = WidgetKind::Slider.default_props();
    assert!(slider_props.min < slider_props.max);
    assert!(slider_props.value >= slider_props.min);
    assert!(slider_props.value <= slider_props.max);

    let combobox_props = WidgetKind::ComboBox.default_props();
    assert!(!combobox_props.items.is_empty());
    assert!(combobox_props.selected < combobox_props.items.len());
}

#[test]
fn test_widget_props_default() {
    let props = WidgetProps::default();
    assert!(!props.text.is_empty());
    assert!(props.min <= props.max);
    assert_eq!(props.columns, 2);
    assert!(props.enabled);
}

#[test]
fn test_dock_area_default() {
    let area = DockArea::default();
    assert_eq!(area, DockArea::Free);
}

#[test]
fn test_widget_id_display() {
    let id = WidgetId::new(42);
    assert_eq!(id.to_string(), "42");
}

#[test]
fn test_widget_id_z_order() {
    let id = WidgetId::new(100);
    assert_eq!(id.as_z(), 100);
}

#[test]
fn every_kind_has_a_positive_default_size() {
    for kind in ALL_KINDS {
        let size = kind.default_size();
        assert!(size.width > 0, "{:?}", kind);
        assert!(size.height > 0, "{:?}", kind);
    }
}

#[test]
fn default_sizes_are_in_tenths_of_a_point() {
    let size = WidgetKind::Button.default_size();
    assert_eq!((size.width, size.height), (1600, 320));
    let size = WidgetKind::Separator.default_size();
    assert_eq!((size.width, size.height), (2200, 80));
    let size = WidgetKind::Spinner.default_size();
    assert_eq!((size.width, size.height), (320, 320));
    let size = WidgetKind::Tree.default_size();
    assert_eq!((size.width, size.height), (2600, 2000));
}

#[test]
fn every_kind_selects_one_of_its_default_items() {
    for kind in ALL_KINDS {
        let props = kind.default_props();
        if !props.items.is_empty() {
            assert!(props.selected < props.items.len(), "{:?}", kind);
        }
        assert_eq!(props.selected, 0, "{:?}", kind);
    }
}

#[test]
fn default_props_set_the_fields_of_the_kind() {
    let slider = WidgetKind::Slider.default_props();
    assert_eq!((slider.value, slider.min, slider.max), (42000, 0, 100000));
    assert_eq!(slider.text, "Value");

    let progress = WidgetKind::ProgressBar.default_props();
    assert_eq!((progress.value, progress.min, progress.max), (250, 0, 1000));
    assert_eq!(progress.text, "");

    let angle = WidgetKind::AngleSelector.default_props();
    assert_eq!((angle.value, angle.min, angle.max), (45000, 0, 360000));

    let combo = WidgetKind::ComboBox.default_props();
    assert_eq!(combo.items, vec!["Red", "Green", "Blue"]);

    let tree = WidgetKind::Tree.default_props();
    assert_eq!(
        tree.items,
        vec![
            "Animals",
            "  Mammals",
            "    Dogs",
            "    Cats",
            "  Birds",
            "Plants",
            "  Trees",
            "  Flowers"
        ]
    );

    let date = WidgetKind::DatePicker.default_props();
    assert_eq!((date.year, date.month, date.day), (2025, 1, 1));

    let header = WidgetKind::CollapsingHeader.default_props();
    assert!(header.checked);

    let placeholder = WidgetKind::Placeholder.default_props();
    assert_eq!(placeholder.color, Rgba { r: 128, g: 128, b: 128, a: 128 });

    let link = WidgetKind::Hyperlink.default_props();
    assert_eq!(link.url, "https://example.com");

    let image = WidgetKind::Image.default_props();
    assert_eq!(image.url, "file://image.png");
    assert_eq!(image.text, "image.png");

    let code = WidgetKind::Code.default_props();
    assert_eq!(code.text, "fn main() {\n    println!(\"Hello\");\n}");

    assert_eq!(WidgetKind::Separator.default_props(), WidgetProps::default());
    assert_eq!(WidgetKind::TabBar.default_props().text, "Label");
}

#[test]
fn common_starting_properties() {
    let props = WidgetProps::default();
    assert_eq!(props.text, "Label");
    assert!(!props.checked);
    assert_eq!((props.value, props.min, props.max), (500, 0, 1000));
    assert!(props.items.is_empty());
    assert_eq!(props.selected, 0);
    assert_eq!(props.url, "https://example.com");
    assert_eq!((props.year, props.month, props.day), (2024, 1, 1));
    assert_eq!(props.icon, "\u{1f5bc}\u{fe0f}");
    assert_eq!(props.color, Rgba { r: 100, g: 149, b: 237, a: 255 });
    assert_eq!(props.tooltip, "");
    assert!(!props.horizontal);
}

#[test]
fn widget_id_keeps_its_number() {
    assert_eq!(WidgetId::new(7).value(), 7);
    assert_eq!(WidgetId::new(0).to_string(), "0");
    assert_eq!(WidgetId::new(u64::MAX).to_string(), "18446744073709551615");
    assert_eq!(WidgetId::new(1234567890).to_string(), "1234567890");
}

#[test]
fn z_of_a_large_handle_is_its_low_word() {
    assert_eq!(WidgetId::new(0x7fff_ffff).as_z(), i32::MAX);
    assert_eq!(WidgetId::new(0x8000_0000).as_z(), i32::MIN);
    assert_eq!(WidgetId::new(0xffff_ffff).as_z(), -1);
    assert_eq!(WidgetId::new(0x1_0000_0005).as_z(), 5);
    assert_eq!(WidgetId::new(u64::MAX).as_z(), -1);
}

#[test]
fn clamped_selection_stays_within_the_items() {
    let mut props = WidgetProps::default();
    props.selected = 4;
    assert_eq!(props.clamped_selection(), 0);
    props.items = vec!["a".to_string(), "b".to_string()];
    assert_eq!(props.clamped_selection(), 1);
    props.selected = 1;
    assert_eq!(props.clamped_selection(), 1);
    props.selected = 0;
    assert_eq!(props.clamped_selection(), 0);
    assert_eq!(props.selected, 0);
}

#[test]
fn set_items_moves_a_selection_that_fell_out() {
    let mut props = WidgetKind::ComboBox.default_props();
    props.selected = 2;
    props.set_items(vec!["x".to_string(), "y".to_string()]);
    assert_eq!(props.items, vec!["x", "y"]);
    assert_eq!(props.selected, 1);

    props.set_items(vec!["x".to_string(), "y".to_string(), "z".to_string()]);
    assert_eq!(props.selected, 1);

    props.set_items(Vec::new());
    assert!(props.items.is_empty());
    assert_eq!(props.selected, 0);
    assert_eq!(props.text, "Choose one");
}

#[test]
fn escape_leaves_other_characters_alone() {
    assert_eq!(escape(""), "");
    assert_eq!(escape("\\"), "\\\\");
    assert_eq!(escape("\""), "\\\"");
    assert_eq!(escape("a\nb\t'c' \u{1f5bc}"), "a\nb\t'c' \u{1f5bc}");
    assert_eq!(escape("\\\"\\"), "\\\\\\\"\\\\");
}

/// Reads the body of a string literal up to its closing quote, as far as
/// the escapes of the generated text go; a bare carriage return is refused.
fn read_literal(text: &str) -> Option<(String, usize)> {
    let chars: Vec<char> = text.chars().collect();
    let mut read = String::new();
    let mut i = 0;
    while i < chars.len() {
        match chars[i] {
            '"' => return Some((read, i)),
            '\r' => return None,
            '\\' => {
                if i + 1 < chars.len() && (chars[i + 1] == '\\' || chars[i + 1] == '"') {
                    read.push(chars[i + 1]);
                    i += 2;
                } else if i + 1 < chars.len() && chars[i + 1] == 'r' {
                    read.push('\r');
                    i += 2;
                } else {
                    return None;
                }
            }
            c => {
                read.push(c);
                i += 1;
            }
        }
    }
    None
}

#[test]
fn escaped_text_reads_back_as_it_was() {
    for s in [
        "",
        "plain",
        "a\"b",
        "\\",
        "\\\\\"",
        "ends with \\",
        "\"\"\"",
        "x\\\"y\" z",
        "\r",
        "line\r\nnext",
        "\\r is not \r",
        "tab\tand\nnewline",
    ] {
        let literal = format!("{}\"); }});", escape(s));
        let escaped_len = escape(s).chars().count();
        assert_eq!(read_literal(&literal), Some((s.to_string(), escaped_len)));
        assert_eq!(read_literal(&escape(s)), None);
    }
}

#[test]
fn z_values_in_front_and_behind() {
    assert_eq!(z_in_front(0, 0), 1);
    assert_eq!(z_in_front(7, 2), 10);
    assert_eq!(z_in_front(-5, 1), -3);
    assert_eq!(z_in_front(i32::MAX - 1, 0), i32::MAX);
    assert_eq!(z_in_front(i32::MAX - 1, 5), i32::MAX);
    assert_eq!(z_in_front(i32::MAX, 0), i32::MAX);
    assert_eq!(z_in_front(i32::MIN, usize::MAX), i32::MAX);
    assert_eq!(z_behind(0, 0), -1);
    assert_eq!(z_behind(7, 2), 4);
    assert_eq!(z_behind(i32::MIN + 1, 0), i32::MIN);
    assert_eq!(z_behind(i32::MIN, 3), i32::MIN);
    assert_eq!(z_behind(i32::MAX, usize::MAX), i32::MIN);
}

#[test]
fn escape_writes_a_carriage_return_as_an_escape() {
    assert_eq!(escape("\r"), "\\r");
    assert_eq!(escape("a\r\nb"), "a\\r\nb");
    assert_eq!(escape("\r\r"), "\\r\\r");
    assert_eq!(escape("r\\r"), "r\\\\r");
    assert!(!escape("x\ry\r\n").contains('\r'));
    assert_eq!(read_literal("\r\""), None);
    assert_eq!(read_literal("\\r\""), Some(("\r".to_string(), 2)));
}
