use rad_builder::project::{listed, IdSource, Project};
use rad_builder::widget::{
    copy_strings, DockArea, Point, Size, Widget, WidgetId, WidgetKind, PASTE_OFFSET,
};

fn new_project() -> Project {
    Project {
        widgets: Vec::new(),
        canvas_size: Size { width: 12000, height: 8000 },
        panel_top_enabled: true,
        panel_bottom_enabled: false,
        panel_left_enabled: false,
        panel_right_enabled: true,
    }
}

fn ids_of(project: &Project) -> Vec<u64> {
    project.widgets.iter().map(|w| w.id.value()).collect()
}

#[test]
fn handles_are_handed_out_in_increasing_order() {
    let mut ids = IdSource::new();
    assert_eq!(ids.peek(), 1);
    assert!(ids.has_next());
    let a = ids.allocate();
    let b = ids.allocate();
    let c = ids.allocate();
    assert_eq!((a.value(), b.value(), c.value()), (1, 2, 3));
    assert_eq!(ids.peek(), 4);
}

#[test]
fn placing_takes_size_and_properties_from_the_catalogue() {
    let mut project = new_project();
    let mut ids = IdSource::new();
    let id = project.place(&mut ids, WidgetKind::Slider, Point { x: 15, y: -20 }, DockArea::Left);
    assert_eq!(id, WidgetId::new(1));
    assert_eq!(ids.peek(), 2);
    assert_eq!(project.widgets.len(), 1);
    let w = &project.widgets[0];
    assert_eq!(w.id, id);
    assert_eq!(w.kind, WidgetKind::Slider);
    assert_eq!(w.pos, Point { x: 15, y: -20 });
    assert_eq!(w.size, WidgetKind::Slider.default_size());
    assert_eq!(w.size, Size { width: 2200, height: 240 });
    assert_eq!(w.z, 1);
    assert_eq!(w.area, DockArea::Left);
    assert_eq!(w.props, WidgetKind::Slider.default_props());
    assert_eq!(project.canvas_size, Size { width: 12000, height: 8000 });
    assert!(project.panel_top_enabled && project.panel_right_enabled);
}

#[test]
fn placing_appends_in_order() {
    let mut project = new_project();
    let mut ids = IdSource::new();
    project.place(&mut ids, WidgetKind::Label, Point { x: 0, y: 0 }, DockArea::Free);
    project.place(&mut ids, WidgetKind::Button, Point { x: 0, y: 0 }, DockArea::Top);
    project.place(&mut ids, WidgetKind::Tree, Point { x: 0, y: 0 }, DockArea::Free);
    assert_eq!(ids_of(&project), vec![1, 2, 3]);
    assert_eq!(project.widgets[1].kind, WidgetKind::Button);
    assert_eq!(project.greatest_id(), 3);
}

#[test]
fn create_gives_the_widget_of_a_placement() {
    let w = Widget::create(
        WidgetId::new(0x1_0000_0007),
        WidgetKind::ComboBox,
        Point { x: 1, y: 2 },
        DockArea::Center,
    );
    assert_eq!(w.id.value(), 0x1_0000_0007);
    assert_eq!(w.z, 7);
    assert_eq!(w.size, Size { width: 2200, height: 280 });
    assert_eq!(w.props.items, vec!["Red", "Green", "Blue"]);
    assert_eq!(w.props.selected, 0);
}

#[test]
fn removing_keeps_the_others_in_order() {
    let mut project = new_project();
    let mut ids = IdSource::new();
    for kind in [
        WidgetKind::Label,
        WidgetKind::Button,
        WidgetKind::Checkbox,
        WidgetKind::Slider,
        WidgetKind::Tree,
    ] {
        project.place(&mut ids, kind, Point { x: 0, y: 0 }, DockArea::Free);
    }
    project.remove(&[WidgetId::new(4), WidgetId::new(2), WidgetId::new(9), WidgetId::new(2)]);
    assert_eq!(ids_of(&project), vec![1, 3, 5]);
    assert_eq!(project.widgets[1].kind, WidgetKind::Checkbox);
    assert!(project.panel_top_enabled);

    project.remove(&[]);
    assert_eq!(ids_of(&project), vec![1, 3, 5]);

    project.remove(&[WidgetId::new(1), WidgetId::new(3), WidgetId::new(5)]);
    assert!(project.widgets.is_empty());
    project.remove(&[WidgetId::new(1)]);
    assert!(project.widgets.is_empty());
}

#[test]
fn removing_takes_every_widget_with_the_handle() {
    let mut project = new_project();
    let twin = Widget::create(
        WidgetId::new(6),
        WidgetKind::Label,
        Point { x: 0, y: 0 },
        DockArea::Free,
    );
    project.widgets = vec![twin.duplicate(), twin.duplicate(), twin];
    project.remove(&[WidgetId::new(6)]);
    assert!(project.widgets.is_empty());
}

#[test]
fn a_removed_handle_is_not_used_again() {
    let mut project = new_project();
    let mut ids = IdSource::new();
    let a = project.place(&mut ids, WidgetKind::Label, Point { x: 0, y: 0 }, DockArea::Free);
    let b = project.place(&mut ids, WidgetKind::Label, Point { x: 0, y: 0 }, DockArea::Free);
    project.remove(&[b]);
    let c = project.place(&mut ids, WidgetKind::Label, Point { x: 0, y: 0 }, DockArea::Free);
    assert!(a.value() < b.value());
    assert!(b.value() < c.value());
    assert_eq!(ids_of(&project), vec![1, 3]);
}

#[test]
fn pasting_copies_under_a_new_handle() {
    let mut project = new_project();
    let mut ids = IdSource::new();
    project.place(&mut ids, WidgetKind::ComboBox, Point { x: 100, y: 50 }, DockArea::Top);
    project.widgets[0].props.text = "Pick".to_string();
    project.widgets[0].z = -3;
    let clipboard = project.widgets[0].duplicate();
    project.widgets[0].props.text = "changed later".to_string();

    let id = project.paste(&mut ids, &clipboard);
    assert_eq!(id.value(), 2);
    assert_eq!(ids_of(&project), vec![1, 2]);
    let copy = &project.widgets[1];
    assert_eq!(copy.kind, WidgetKind::ComboBox);
    assert_eq!(copy.pos, Point { x: 300, y: 250 });
    assert_eq!(PASTE_OFFSET, 200);
    assert_eq!(copy.size, clipboard.size);
    assert_eq!(copy.z, 2);
    assert_eq!(copy.area, DockArea::Top);
    assert_eq!(copy.props, clipboard.props);
    assert_eq!(copy.props.text, "Pick");
    assert_eq!(clipboard.id.value(), 1);
}

#[test]
fn pasting_at_the_far_edge_stays_at_the_edge() {
    let mut project = new_project();
    let mut ids = IdSource::new();
    let far = Widget::create(
        WidgetId::new(1),
        WidgetKind::Label,
        Point { x: i32::MAX - 199, y: i32::MAX - 200 },
        DockArea::Free,
    );
    project.paste(&mut ids, &far);
    assert_eq!(project.widgets[0].pos, Point { x: i32::MAX, y: i32::MAX });
}

#[test]
fn a_copy_holds_the_same() {
    let mut w = Widget::create(
        WidgetId::new(12),
        WidgetKind::Tree,
        Point { x: -5, y: 7 },
        DockArea::Bottom,
    );
    w.props.tooltip = "tip".to_string();
    w.props.selected = 3;
    let copy = w.duplicate();
    assert_eq!(copy, w);
    assert_eq!(w.props.duplicate(), w.props);
    assert_eq!(copy_strings(&w.props.items), w.props.items);
    assert_eq!(copy_strings(&Vec::new()), Vec::<String>::new());
}

#[test]
fn numbering_goes_on_after_an_opened_project() {
    let mut project = new_project();
    let mut ids = IdSource::new();
    assert_eq!(project.greatest_id(), 0);
    ids.resume_after(&project);
    assert_eq!(ids.peek(), 1);

    for id in [7u64, 41, 3] {
        project.widgets.push(Widget::create(
            WidgetId::new(id),
            WidgetKind::Label,
            Point { x: 0, y: 0 },
            DockArea::Free,
        ));
    }
    assert_eq!(project.greatest_id(), 41);
    ids.resume_after(&project);
    assert_eq!(ids.peek(), 42);
    assert_eq!(ids.allocate().value(), 42);

    let mut later = IdSource::new();
    for _ in 0..100 {
        later.allocate();
    }
    later.resume_after(&project);
    assert_eq!(later.peek(), 42);
    later.resume_after(&new_project());
    assert_eq!(later.peek(), 42);
}

#[test]
fn no_handle_is_left_after_the_greatest() {
    let mut project = new_project();
    project.widgets.push(Widget::create(
        WidgetId::new(u64::MAX),
        WidgetKind::Label,
        Point { x: 0, y: 0 },
        DockArea::Free,
    ));
    let mut ids = IdSource::new();
    ids.resume_after(&project);
    assert_eq!(ids.peek(), u64::MAX);
    assert!(!ids.has_next());

    project.widgets[0].id = WidgetId::new(u64::MAX - 1);
    ids.resume_after(&project);
    assert!(!ids.has_next());
}

#[test]
fn listed_finds_a_handle() {
    let ids = [WidgetId::new(4), WidgetId::new(9)];
    assert!(listed(&ids, WidgetId::new(9)));
    assert!(listed(&ids, WidgetId::new(4)));
    assert!(!listed(&ids, WidgetId::new(5)));
    assert!(!listed(&[], WidgetId::new(4)));
}
