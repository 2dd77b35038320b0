use rad_builder::codegen::render::tree_outline;
use rad_builder::outline::{parse_outline, OutlineNode};

fn node(label: &str, children: Vec<OutlineNode>) -> OutlineNode {
    OutlineNode { label: label.to_string(), children }
}

fn leaf(label: &str) -> OutlineNode {
    node(label, Vec::new())
}

fn parse(lines: &[&str]) -> Vec<OutlineNode> {
    let lines: Vec<String> = lines.iter().map(|s| s.to_string()).collect();
    parse_outline(&lines)
}

#[test]
fn two_roots_with_children() {
    assert_eq!(
        parse(&["A", "  B", "  C", "D"]),
        vec![node("A", vec![leaf("B"), leaf("C")]), leaf("D")]
    );
}

#[test]
fn no_lines_no_nodes() {
    assert_eq!(parse(&[]), Vec::<OutlineNode>::new());
}

#[test]
fn three_levels() {
    assert_eq!(
        parse(&[
            "Animals",
            "  Mammals",
            "    Dogs",
            "    Cats",
            "  Birds",
            "Plants",
            "  Trees",
            "  Flowers"
        ]),
        vec![
            node(
                "Animals",
                vec![node("Mammals", vec![leaf("Dogs"), leaf("Cats")]), leaf("Birds")]
            ),
            node("Plants", vec![leaf("Trees"), leaf("Flowers")]),
        ]
    );
}

#[test]
fn a_jump_of_two_levels_ends_the_outline() {
    assert_eq!(parse(&["A", "    deep", "B"]), vec![leaf("A")]);
    assert_eq!(parse(&["A", "  B", "      too deep", "  C", "D"]), vec![node("A", vec![leaf("B")])]);
}

#[test]
fn an_indented_first_line_ends_the_outline() {
    assert_eq!(parse(&["  A", "B"]), Vec::<OutlineNode>::new());
}

#[test]
fn lines_without_a_label_are_left_out() {
    assert_eq!(parse(&["A", "", "      ", "  B", "\t", "C"]), vec![node("A", vec![leaf("B")]), leaf("C")]);
    assert_eq!(parse(&["", "   "]), Vec::<OutlineNode>::new());
}

#[test]
fn an_odd_space_does_not_make_a_level() {
    assert_eq!(parse(&["A", " B", "   C"]), vec![leaf("A"), node("B", vec![leaf("C")])]);
    assert_eq!(parse(&["A", "   B", "     C"]), vec![node("A", vec![node("B", vec![leaf("C")])])]);
}

#[test]
fn labels_lose_the_white_space_round_them() {
    assert_eq!(parse(&["A  ", "  B \t", "  two words  "]), vec![node("A", vec![leaf("B"), leaf("two words")])]);
    assert_eq!(parse(&["\tA", "\u{a0}B\u{3000}"]), vec![leaf("A"), leaf("B")]);
}

#[test]
fn only_spaces_count_for_the_level() {
    assert_eq!(parse(&["A", "\t\tB", " \t C"]), vec![leaf("A"), leaf("B"), leaf("C")]);
}

#[test]
fn coming_back_up_several_levels() {
    assert_eq!(
        parse(&["A", "  B", "    C", "D", "  E"]),
        vec![node("A", vec![node("B", vec![leaf("C")])]), node("D", vec![leaf("E")])]
    );
}

/// The nodes written out again as levels and labels, in reading order.
fn entries(nodes: &[OutlineNode], depth: usize, out: &mut Vec<(usize, String)>) {
    for n in nodes {
        out.push((depth, n.label.clone()));
        entries(&n.children, depth + 1, out);
    }
}

#[test]
fn a_forest_reads_back_as_its_lines() {
    let lines = ["A", "  B", "    C", "", "  D", "E", "  F", "      G", "H"];
    let mut read = Vec::new();
    entries(&parse(&lines), 0, &mut read);
    let expected: Vec<(usize, String)> =
        [(0, "A"), (1, "B"), (2, "C"), (1, "D"), (0, "E"), (1, "F")]
            .iter()
            .map(|(level, label)| (*level, label.to_string()))
            .collect();
    assert_eq!(read, expected);
}

#[test]
fn a_tree_without_lines_has_no_nodes() {
    assert_eq!(tree_outline(&Vec::new()), Vec::<OutlineNode>::new());
    let lines = vec!["X".to_string(), "  Y".to_string()];
    assert_eq!(tree_outline(&lines), parse_outline(&lines));
    assert_eq!(tree_outline(&lines), vec![node("X", vec![leaf("Y")])]);
}
