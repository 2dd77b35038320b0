use rad_builder::selection::{add_to_selection, is_selected, position, toggle_selection};
use rad_builder::widget::WidgetId;

fn ids(numbers: &[u64]) -> Vec<WidgetId> {
    numbers.iter().map(|n| WidgetId::new(*n)).collect()
}

#[test]
fn toggling_selects_and_deselects() {
    let mut selected = ids(&[4, 9]);
    toggle_selection(&mut selected, WidgetId::new(7));
    assert_eq!(selected, ids(&[4, 9, 7]));
    toggle_selection(&mut selected, WidgetId::new(4));
    assert_eq!(selected, ids(&[9, 7]));
    toggle_selection(&mut selected, WidgetId::new(7));
    assert_eq!(selected, ids(&[9]));
    toggle_selection(&mut selected, WidgetId::new(9));
    assert!(selected.is_empty());
    toggle_selection(&mut selected, WidgetId::new(9));
    assert_eq!(selected, ids(&[9]));
}

#[test]
fn toggling_takes_the_first_occurrence() {
    let mut selected = ids(&[1, 2, 1, 3]);
    toggle_selection(&mut selected, WidgetId::new(1));
    assert_eq!(selected, ids(&[2, 1, 3]));
}

#[test]
fn adding_does_not_select_twice() {
    let mut selected = Vec::new();
    add_to_selection(&mut selected, WidgetId::new(5));
    add_to_selection(&mut selected, WidgetId::new(6));
    add_to_selection(&mut selected, WidgetId::new(5));
    assert_eq!(selected, ids(&[5, 6]));
}

#[test]
fn position_is_the_first_index() {
    let selected = ids(&[3, 8, 3]);
    assert_eq!(position(&selected, WidgetId::new(3)), Some(0));
    assert_eq!(position(&selected, WidgetId::new(8)), Some(1));
    assert_eq!(position(&selected, WidgetId::new(1)), None);
    assert!(is_selected(&selected, WidgetId::new(8)));
    assert!(!is_selected(&selected, WidgetId::new(0)));
    assert!(!is_selected(&Vec::new(), WidgetId::new(8)));
}
