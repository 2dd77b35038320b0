//! Outlines: indented lines of text read as a forest of labelled nodes.
//!
//! Two leading spaces make one level. A line nests under the nearest line
//! above it that stands one level higher. Reading stops at the first line
//! that lies more than one level below the line before it; that line and all
//! after it are left out.

use vstd::prelude::*;
use crate::widget::texts;

verus! {

/// A node of an outline: its label and the nodes below it.
#[derive(Debug, PartialEq, Eq)]
pub struct OutlineNode {
    pub label: String,
    pub children: Vec<OutlineNode>,
}

/// What an [`OutlineNode`] holds.
pub ghost struct Outline {
    pub label: Seq<char>,
    pub children: Seq<Outline>,
}

/// What a node holds: the text of its label, and what its children hold.
pub open spec fn node_view(node: OutlineNode) -> Outline
    decreases node,
{
    Outline {
        label: node.label@,
        children: Seq::new(
            node.children@.len(),
            |i: int|
                if 0 <= i < node.children@.len() {
                    node_view(node.children@[i])
                } else {
                    arbitrary()
                },
        ),
    }
}

impl View for OutlineNode {
    type V = Outline;

    open spec fn view(&self) -> Outline {
        node_view(*self)
    }
}

/// The views of a list of nodes.
pub open spec fn forest_view(nodes: Seq<OutlineNode>) -> Seq<Outline> {
    Seq::new(nodes.len(), |i: int| nodes[i]@)
}

/// A node's view holds the text of its label and the views of its children.
pub proof fn lemma_node_view(node: OutlineNode)
    ensures
        node@ == (Outline { label: node.label@, children: forest_view(node.children@) }),
{
    assert(node@.children =~= forest_view(node.children@));
}

/// Whether `str::trim` takes the character for white space.
pub open spec fn is_space(c: char) -> bool {
    let n = c as u32;
    ||| 0x09 <= n <= 0x0d
    ||| n == 0x20
    ||| n == 0x85
    ||| n == 0xa0
    ||| n == 0x1680
    ||| 0x2000 <= n <= 0x200a
    ||| n == 0x2028
    ||| n == 0x2029
    ||| n == 0x202f
    ||| n == 0x205f
    ||| n == 0x3000
}

/// Number of space characters that a line begins with.
pub open spec fn leading_spaces(line: Seq<char>) -> nat
    decreases line.len(),
{
    if line.len() > 0 && line[0] == ' ' {
        1 + leading_spaces(line.drop_first())
    } else {
        0
    }
}

/// The line without the white space that it begins with.
pub open spec fn trim_start(line: Seq<char>) -> Seq<char>
    decreases line.len(),
{
    if line.len() > 0 && is_space(line[0]) {
        trim_start(line.drop_first())
    } else {
        line
    }
}

/// The line without the white space that it ends with.
pub open spec fn trim_end(line: Seq<char>) -> Seq<char>
    decreases line.len(),
{
    if line.len() > 0 && is_space(line.last()) {
        trim_end(line.drop_last())
    } else {
        line
    }
}

/// A line of an outline, read: its nesting level and its label.
pub ghost struct Entry {
    pub level: nat,
    pub label: Seq<char>,
}

/// How a line reads: one level for every two leading spaces, and the line
/// without the white space round it as its label.
pub open spec fn entry_of(line: Seq<char>) -> Entry {
    Entry { level: leading_spaces(line) / 2, label: trim_end(trim_start(line)) }
}

/// The lines that have a label, read, in order.
pub open spec fn entries_of(lines: Seq<Seq<char>>) -> Seq<Entry> {
    lines.map_values(|line: Seq<char>| entry_of(line)).filter(|e: Entry| e.label.len() > 0)
}

/// Whether the entry at `i` may follow the entries before it: the first
/// entry stands at level 0, every other at most one level below the entry
/// before it.
pub open spec fn fits(entries: Seq<Entry>, i: int) -> bool {
    if i == 0 {
        entries[0].level == 0
    } else {
        entries[i].level <= entries[i - 1].level + 1
    }
}

/// Index of the first entry from `from` on that does not fit, or the number
/// of entries where all fit.
pub open spec fn first_misfit(entries: Seq<Entry>, from: int) -> int
    decreases entries.len() - from,
{
    if 0 <= from < entries.len() && fits(entries, from) {
        first_misfit(entries, from + 1)
    } else {
        from
    }
}

/// Index of the first entry in `from..to` that does not lie below `level`,
/// or `to` where all do.
pub open spec fn deeper_end(entries: Seq<Entry>, from: int, to: int, level: nat) -> int
    decreases to - from,
{
    if 0 <= from < to && entries[from].level > level {
        deeper_end(entries, from + 1, to, level)
    } else {
        from
    }
}

/// The run of deeper entries ends within its range; every entry before its
/// end lies below `level`, and the entry at its end, where there is one,
/// does not.
pub proof fn lemma_deeper_end(entries: Seq<Entry>, from: int, to: int, level: nat)
    requires
        0 <= from <= to,
    ensures
        from <= deeper_end(entries, from, to, level) <= to,
        forall|k: int|
            from <= k < deeper_end(entries, from, to, level) ==> (#[trigger] entries[k]).level
                > level,
        deeper_end(entries, from, to, level) < to ==> entries[deeper_end(
            entries,
            from,
            to,
            level,
        )].level <= level,
    decreases to - from,
{
    if from < to && entries[from].level > level {
        lemma_deeper_end(entries, from + 1, to, level);
    }
}

/// The forest that the entries `from..to` make: the first entry is a node,
/// the entries after it that lie below its level make its children, and the
/// entries after those make the nodes beside it.
pub open spec fn forest(entries: Seq<Entry>, from: int, to: int) -> Seq<Outline>
    decreases to - from,
{
    if 0 <= from < to {
        let end = deeper_end(entries, from + 1, to, entries[from].level);
        proof {
            lemma_deeper_end(entries, from + 1, to, entries[from].level);
        }
        seq![Outline { label: entries[from].label, children: forest(entries, from + 1, end) }]
            + forest(entries, end, to)
    } else {
        Seq::empty()
    }
}

/// The forest of an outline: that of its entries up to the first that does
/// not fit.
pub open spec fn outline_of(lines: Seq<Seq<char>>) -> Seq<Outline> {
    let entries = entries_of(lines);
    forest(entries, 0, first_misfit(entries, 0))
}

/// Every entry before the first misfit fits, and the first misfit, where
/// there is one, does not.
pub proof fn lemma_first_misfit(entries: Seq<Entry>, from: int)
    requires
        0 <= from <= entries.len(),
    ensures
        from <= first_misfit(entries, from) <= entries.len(),
        forall|k: int| from <= k < first_misfit(entries, from) ==> fits(entries, k),
        first_misfit(entries, from) < entries.len() ==> !fits(
            entries,
            first_misfit(entries, from),
        ),
    decreases entries.len() - from,
{
    if from < entries.len() && fits(entries, from) {
        lemma_first_misfit(entries, from + 1);
    }
}

/// Where `mid` ends a run of deeper entries, or is the end of the range,
/// the run ends at the same place in `from..mid` as in `from..to`.
proof fn lemma_deeper_end_within(entries: Seq<Entry>, from: int, mid: int, to: int, level: nat)
    requires
        0 <= from <= mid <= to,
        mid == to || entries[mid].level <= level,
    ensures
        deeper_end(entries, from, to, level) == deeper_end(entries, from, mid, level),
    decreases mid - from,
{
    if from < mid && entries[from].level > level {
        lemma_deeper_end_within(entries, from + 1, mid, to, level);
    }
}

/// A range of entries that all lie below `level` is one run.
proof fn lemma_deeper_end_all(entries: Seq<Entry>, from: int, to: int, level: nat)
    requires
        0 <= from <= to,
        forall|k: int| from <= k < to ==> (#[trigger] entries[k]).level > level,
    ensures
        deeper_end(entries, from, to, level) == to,
    decreases to - from,
{
    if from < to {
        lemma_deeper_end_all(entries, from + 1, to, level);
    }
}

/// A forest can be cut between two of its top nodes: where no entry of
/// `from..mid` lies above `level` and the entry at `mid` does not lie below
/// it, the forest of `from..to` is that of `from..mid` followed by that of
/// `mid..to`.
pub proof fn lemma_forest_split(entries: Seq<Entry>, from: int, mid: int, to: int, level: nat)
    requires
        0 <= from <= mid <= to,
        forall|k: int| from <= k < mid ==> (#[trigger] entries[k]).level >= level,
        mid == to || entries[mid].level <= level,
    ensures
        forest(entries, from, to) == forest(entries, from, mid) + forest(entries, mid, to),
    decreases mid - from,
{
    if from < mid {
        let top = entries[from].level;
        let end = deeper_end(entries, from + 1, mid, top);
        lemma_deeper_end(entries, from + 1, mid, top);
        lemma_deeper_end_within(entries, from + 1, mid, to, top);
        lemma_forest_split(entries, end, mid, to, level);
        let node = Outline { label: entries[from].label, children: forest(entries, from + 1, end) };
        assert(forest(entries, from, to) == seq![node] + forest(entries, end, to));
        assert(forest(entries, from, mid) == seq![node] + forest(entries, end, mid));
        assert(seq![node] + (forest(entries, end, mid) + forest(entries, mid, to)) =~= (seq![node]
            + forest(entries, end, mid)) + forest(entries, mid, to));
    } else {
        assert(forest(entries, from, mid) =~= Seq::<Outline>::empty());
        assert(forest(entries, from, to) =~= forest(entries, from, mid) + forest(
            entries,
            mid,
            to,
        ));
    }
}

/// A node written out again: its entry at the level `depth`, then the
/// entries of the nodes below it, one level deeper.
pub open spec fn node_entries(node: Outline, depth: nat) -> Seq<Entry>
    decreases node, 0nat,
{
    seq![Entry { level: depth, label: node.label }] + forest_entries(
        node.children,
        0,
        depth + 1,
    )
}

/// The nodes from `from` on written out again, one after the other, at the
/// level `depth`.
pub open spec fn forest_entries(nodes: Seq<Outline>, from: int, depth: nat) -> Seq<Entry>
    decreases nodes, nodes.len() - from,
{
    if 0 <= from < nodes.len() {
        node_entries(nodes[from], depth) + forest_entries(nodes, from + 1, depth)
    } else {
        Seq::empty()
    }
}

proof fn lemma_forest_entries_after(
    first: Seq<Outline>,
    rest: Seq<Outline>,
    from: int,
    depth: nat,
)
    requires
        0 <= from,
    ensures
        forest_entries(first + rest, first.len() + from, depth) == forest_entries(
            rest,
            from,
            depth,
        ),
    decreases rest.len() - from,
{
    if from < rest.len() {
        assert((first + rest)[first.len() + from] == rest[from]);
        lemma_forest_entries_after(first, rest, from + 1, depth);
    }
}

/// The forest of a range of entries that nest properly, written out again,
/// is the range: no entry is lost, none comes twice, and each node stands
/// as deep as its entry says.
pub proof fn lemma_forest_reads_back(entries: Seq<Entry>, from: int, to: int, depth: nat)
    requires
        0 <= from <= to <= entries.len(),
        forall|k: int| from <= k < to ==> (#[trigger] entries[k]).level >= depth,
        from < to ==> entries[from].level == depth,
        forall|k: int| from < k < to ==> #[trigger] fits(entries, k),
    ensures
        forest_entries(forest(entries, from, to), 0, depth) == entries.subrange(from, to),
    decreases to - from,
{
    if from < to {
        let end = deeper_end(entries, from + 1, to, depth);
        lemma_deeper_end(entries, from + 1, to, depth);
        let node = Outline { label: entries[from].label, children: forest(entries, from + 1, end) };
        let rest = forest(entries, end, to);
        assert(forest_entries(node.children, 0, depth + 1) == entries.subrange(from + 1, end)) by {
            if from + 1 < end {
                assert(fits(entries, from + 1));
            }
            lemma_forest_reads_back(entries, from + 1, end, depth + 1);
        }
        assert(forest_entries(rest, 0, depth) == entries.subrange(end, to)) by {
            lemma_forest_reads_back(entries, end, to, depth);
        }
        assert(forest_entries(seq![node] + rest, 0, depth) == node_entries(node, depth)
            + forest_entries(rest, 0, depth)) by {
            assert((seq![node] + rest)[0] == node);
            lemma_forest_entries_after(seq![node], rest, 0, depth);
        }
        assert(node_entries(node, depth) == seq![entries[from]] + entries.subrange(from + 1, end))
            by {
            assert(Entry { level: depth, label: node.label } == entries[from]);
        }
        assert(seq![entries[from]] + entries.subrange(from + 1, end) + entries.subrange(end, to)
            =~= entries.subrange(from, to));
    } else {
        assert(entries.subrange(from, to) =~= Seq::<Entry>::empty());
    }
}

/// No lines make no nodes.
pub proof fn lemma_outline_of_nothing()
    ensures
        outline_of(Seq::empty()) == Seq::<Outline>::empty(),
{
    let lines = Seq::<Seq<char>>::empty();
    assert(lines.map_values(|line: Seq<char>| entry_of(line)) =~= Seq::<Entry>::empty());
    assert(entries_of(lines) =~= Seq::<Entry>::empty());
}

/// The forest of an outline, written out again, is the lines that were
/// read: those with a label, up to the first that does not fit.
pub proof fn lemma_outline_reads_back(lines: Seq<Seq<char>>)
    ensures
        forest_entries(outline_of(lines), 0, 0) == entries_of(lines).take(
            first_misfit(entries_of(lines), 0),
        ),
{
    let entries = entries_of(lines);
    let stop = first_misfit(entries, 0);
    lemma_first_misfit(entries, 0);
    if 0 < stop {
        assert(fits(entries, 0));
    }
    lemma_forest_reads_back(entries, 0, stop, 0);
}

/// A line as it was read.
struct ReadLine {
    level: usize,
    label: String,
}

impl View for ReadLine {
    type V = Entry;

    closed spec fn view(&self) -> Entry {
        Entry { level: self.level as nat, label: self.label@ }
    }
}

spec fn read_views(lines: Seq<ReadLine>) -> Seq<Entry> {
    lines.map_values(|line: ReadLine| line@)
}

fn is_space_char(c: char) -> (b: bool)
    ensures
        b == is_space(c),
{
    let n: u32 = c as u32;
    (0x09 <= n && n <= 0x0d) || n == 0x20 || n == 0x85 || n == 0xa0 || n == 0x1680 || (0x2000 <= n
        && n <= 0x200a) || n == 0x2028 || n == 0x2029 || n == 0x202f || n == 0x205f || n == 0x3000
}

fn chars_of(s: &str) -> (chars: Vec<char>)
    ensures
        chars@ == s@,
{
    let mut chars: Vec<char> = Vec::new();
    for c in it: s.chars()
        invariant
            it.seq() == s@,
            chars@ == s@.take(it.index()),
    {
        chars.push(c);
        assert(chars@ =~= s@.take(it.index() + 1));
    }
    assert(s@.take(s@.len() as int) =~= s@);
    chars
}

fn read_line(line: &str) -> (entry: ReadLine)
    ensures
        entry@ == entry_of(line@),
{
    let chars = chars_of(line);
    let n: usize = chars.len();
    let mut spaces: usize = 0;
    assert(chars@.skip(0) =~= chars@);
    while spaces < n && chars[spaces] == ' '
        invariant
            spaces <= n,
            n == chars@.len(),
            leading_spaces(chars@) == spaces + leading_spaces(chars@.skip(spaces as int)),
        decreases n - spaces,
    {
        assert(chars@.skip(spaces as int).drop_first() =~= chars@.skip(spaces + 1));
        spaces += 1;
    }
    let mut start: usize = 0;
    while start < n && is_space_char(chars[start])
        invariant
            start <= n,
            n == chars@.len(),
            trim_start(chars@) == trim_start(chars@.skip(start as int)),
        decreases n - start,
    {
        assert(chars@.skip(start as int).drop_first() =~= chars@.skip(start + 1));
        start += 1;
    }
    let mut end: usize = n;
    assert(chars@.skip(start as int) =~= chars@.subrange(start as int, end as int));
    while end > start && is_space_char(chars[end - 1])
        invariant
            start <= end <= n,
            n == chars@.len(),
            trim_end(trim_start(chars@)) == trim_end(chars@.subrange(start as int, end as int)),
        decreases end,
    {
        assert(chars@.subrange(start as int, end as int).drop_last() =~= chars@.subrange(
            start as int,
            end - 1,
        ));
        end -= 1;
    }
    let mut label = String::new();
    let mut i: usize = start;
    while i < end
        invariant
            start <= i <= end <= n,
            n == chars@.len(),
            label@ == chars@.subrange(start as int, i as int),
        decreases end - i,
    {
        label.push(chars[i]);
        assert(label@ =~= chars@.subrange(start as int, i + 1));
        i += 1;
    }
    ReadLine { level: spaces / 2, label }
}

fn read_lines(lines: &[String]) -> (entries: Vec<ReadLine>)
    ensures
        read_views(entries@) == entries_of(texts(lines@)),
{
    let ghost read = |line: Seq<char>| entry_of(line);
    let ghost labelled = |e: Entry| e.label.len() > 0;
    let mut entries: Vec<ReadLine> = Vec::new();
    let mut i: usize = 0;
    assert(read_views(entries@) =~= Seq::<Entry>::empty());
    assert(texts(lines@).take(0).map_values(read) =~= Seq::<Entry>::empty());
    while i < lines.len()
        invariant
            i <= lines.len(),
            read == (|line: Seq<char>| entry_of(line)),
            labelled == (|e: Entry| e.label.len() > 0),
            read_views(entries@) == texts(lines@).take(i as int).map_values(read).filter(labelled),
        decreases lines.len() - i,
    {
        let entry = read_line(lines[i].as_str());
        proof {
            let before = texts(lines@).take(i as int).map_values(read);
            assert(texts(lines@).take(i + 1).map_values(read) =~= before.push(entry@));
            before.lemma_filter_push(entry@, labelled);
        }
        if !entry.label.as_str().is_empty() {
            let ghost kept = entries@;
            let ghost added = entry@;
            entries.push(entry);
            assert(read_views(entries@) =~= read_views(kept).push(added));
        }
        i += 1;
    }
    assert(texts(lines@).take(lines@.len() as int) =~= texts(lines@));
    entries
}

/// Reads the nodes of one level from `pos` on: each entry at `level` with,
/// below it, the nodes of the next level that follow it. Returns the nodes
/// and the index of the first entry that was not read.
fn build(entries: &Vec<ReadLine>, pos: usize, level: usize) -> (r: (Vec<OutlineNode>, usize))
    requires
        level <= pos <= first_misfit(read_views(entries@), 0),
        pos < first_misfit(read_views(entries@), 0) ==> read_views(entries@)[pos as int].level
            <= level,
        pos < entries.len() && read_views(entries@)[pos as int].level == level ==> pos
            < first_misfit(read_views(entries@), 0),
    ensures
        pos <= r.1 <= first_misfit(read_views(entries@), 0),
        forall|k: int| pos <= k < r.1 ==> (#[trigger] read_views(entries@)[k]).level >= level,
        r.1 < first_misfit(read_views(entries@), 0) ==> read_views(entries@)[r.1 as int].level
            < level,
        forest_view(r.0@) == forest(read_views(entries@), pos as int, r.1 as int),
    decreases entries.len() - pos,
{
    let ghost all = read_views(entries@);
    let ghost stop = first_misfit(all, 0);
    proof {
        lemma_first_misfit(all, 0);
    }
    let mut nodes: Vec<OutlineNode> = Vec::new();
    let mut p: usize = pos;
    assert(forest_view(nodes@) =~= forest(all, pos as int, p as int));
    while p < entries.len() && entries[p].level == level
        invariant
            all == read_views(entries@),
            stop == first_misfit(all, 0),
            stop <= entries.len(),
            forall|k: int| 0 <= k < stop ==> fits(all, k),
            stop < entries.len() ==> !fits(all, stop),
            level <= pos <= p <= stop,
            forall|k: int| pos <= k < p ==> (#[trigger] all[k]).level >= level,
            p < stop ==> all[p as int].level <= level,
            p < entries.len() && all[p as int].level == level ==> p < stop,
            forest_view(nodes@) == forest(all, pos as int, p as int),
        decreases entries.len() - p,
    {
        assert(all[p as int] == entries@[p as int]@);
        assert(p < stop);
        let label = entries[p].label.clone();
        assert(fits(all, p + 1) || p + 1 == stop);
        let (children, next) = build(entries, p + 1, level + 1);
        let node = OutlineNode { label, children };
        proof {
            lemma_node_view(node);
            assert(next == stop || all[next as int].level <= level);
            if next == stop && stop < entries.len() {
                assert(all[next - 1].level >= level);
                assert(all[next as int].level != level);
            }
            lemma_forest_split(all, pos as int, p as int, next as int, level as nat);
            lemma_deeper_end_all(all, p + 1, next as int, level as nat);
            assert(forest(all, next as int, next as int) =~= Seq::<Outline>::empty());
            assert(forest(all, p as int, next as int) =~= seq![node@]);
            assert(forest_view(nodes@.push(node)) =~= forest_view(nodes@) + seq![node@]);
        }
        nodes.push(node);
        p = next;
    }
    (nodes, p)
}

/// Reads an outline: the forest of the lines that have a label, up to the
/// first that lies more than one level below the line before it.
pub fn parse_outline(lines: &[String]) -> (nodes: Vec<OutlineNode>)
    ensures
        forest_view(nodes@) == outline_of(texts(lines@)),
{
    let entries = read_lines(lines);
    proof {
        lemma_first_misfit(read_views(entries@), 0);
    }
    let (nodes, end) = build(&entries, 0, 0);
    nodes
}

} // verus!
