//! The widgets of a design: identifiers, docking areas, kinds, properties.
//!
//! Lengths and coordinates are whole numbers of tenths of a point; the
//! numeric value of a control and its bounds are whole numbers of
//! thousandths.

use vstd::prelude::*;
use crate::text::{decimal, push_decimal};

verus! {

/// Handle of a widget. Handles are handed out in increasing order and never
/// used twice within a session.
#[derive(Clone, Copy, Debug, PartialEq, Eq, Hash, Structural)]
pub struct WidgetId(u64);

impl View for WidgetId {
    type V = u64;

    closed spec fn view(&self) -> u64 {
        self.0
    }
}

/// The 32-bit two's-complement reading of the low 32 bits of `n`.
pub open spec fn low_word_signed(n: u64) -> int {
    let low = n as int % 0x1_0000_0000;
    if low < 0x8000_0000 {
        low
    } else {
        low - 0x1_0000_0000
    }
}

impl WidgetId {
    /// The handle with the number `id`.
    pub fn new(id: u64) -> (r: Self)
        ensures
            r@ == id,
    {
        Self(id)
    }

    /// The number behind the handle.
    pub fn value(&self) -> (n: u64)
        ensures
            n == self@,
    {
        self.0
    }

    /// The z-value that a widget gets when it is created: its handle, cut
    /// to 32 bits.
    pub fn as_z(&self) -> (z: i32)
        ensures
            z == low_word_signed(self@),
            self@ <= i32::MAX ==> z == self@,
    {
        let low: u64 = self.0 % 0x1_0000_0000;
        if low < 0x8000_0000 {
            low as i32
        } else {
            (low as i64 - 0x1_0000_0000) as i32
        }
    }

    /// The handle in decimal notation.
    pub fn to_string(&self) -> (s: String)
        ensures
            s@ == decimal(self@ as nat),
    {
        let mut s = String::new();
        push_decimal(&mut s, self.0);
        assert(s@ =~= decimal(self@ as nat));
        s
    }
}

/// The region of the window that a widget is docked to.
#[derive(Clone, Copy, Debug, PartialEq, Eq, Structural)]
pub enum DockArea {
    Free,
    Top,
    Bottom,
    Left,
    Right,
    Center,
}

impl Default for DockArea {
    fn default() -> (area: Self)
        ensures
            area == DockArea::Free,
    {
        DockArea::Free
    }
}

/// The kind of control that a widget stands for.
#[derive(Clone, Copy, Debug, PartialEq, Eq, Structural)]
pub enum WidgetKind {
    MenuButton,
    Label,
    Heading,
    Small,
    Monospace,
    Button,
    ImageTextButton,
    Checkbox,
    TextEdit,
    TextArea,
    Slider,
    ProgressBar,
    RadioGroup,
    Link,
    Hyperlink,
    SelectableLabel,
    ComboBox,
    Separator,
    CollapsingHeader,
    DatePicker,
    AngleSelector,
    Password,
    Tree,
    DragValue,
    Spinner,
    ColorPicker,
    Code,
    Image,
    Placeholder,
    Group,
    ScrollBox,
    TabBar,
    Columns,
    Window,
}

/// A position, in tenths of a point, relative to the top-left corner of the
/// widget's docking area.
#[derive(Clone, Copy, Debug, PartialEq, Eq, Structural)]
pub struct Point {
    pub x: i32,
    pub y: i32,
}

/// A width and a height, in tenths of a point.
#[derive(Clone, Copy, Debug, PartialEq, Eq, Structural)]
pub struct Size {
    pub width: i32,
    pub height: i32,
}

/// A colour, as its red, green, blue and alpha components.
#[derive(Clone, Copy, Debug, PartialEq, Eq, Structural)]
pub struct Rgba {
    pub r: u8,
    pub g: u8,
    pub b: u8,
    pub a: u8,
}

/// The properties of a widget. One record serves all kinds; each kind reads
/// the fields that mean something to it and leaves the rest alone.
#[derive(Clone, Debug, PartialEq, Eq)]
pub struct WidgetProps {
    /// Label, caption, placeholder or content.
    pub text: String,
    pub checked: bool,
    /// Numeric value, in thousandths.
    pub value: i32,
    /// Lower bound of the value, in thousandths.
    pub min: i32,
    /// Upper bound of the value, in thousandths.
    pub max: i32,
    /// Options of a list control, tabs of a tab bar, outline lines of a tree.
    pub items: Vec<String>,
    /// Index of the selected item.
    pub selected: usize,
    pub url: String,
    pub year: i32,
    pub month: u32,
    pub day: u32,
    pub icon: String,
    pub color: Rgba,
    pub tooltip: String,
    /// Whether a group lays its contents out in a row.
    pub horizontal: bool,
    pub enabled: bool,
    /// Number of columns of a column layout.
    pub columns: usize,
}

/// What a [`WidgetProps`] holds.
pub ghost struct PropsView {
    pub text: Seq<char>,
    pub checked: bool,
    pub value: i32,
    pub min: i32,
    pub max: i32,
    pub items: Seq<Seq<char>>,
    pub selected: usize,
    pub url: Seq<char>,
    pub year: i32,
    pub month: u32,
    pub day: u32,
    pub icon: Seq<char>,
    pub color: Rgba,
    pub tooltip: Seq<char>,
    pub horizontal: bool,
    pub enabled: bool,
    pub columns: usize,
}

/// The texts of a list of strings.
pub open spec fn texts(items: Seq<String>) -> Seq<Seq<char>> {
    items.map_values(|s: String| s@)
}

impl View for WidgetProps {
    type V = PropsView;

    open spec fn view(&self) -> PropsView {
        PropsView {
            text: self.text@,
            checked: self.checked,
            value: self.value,
            min: self.min,
            max: self.max,
            items: texts(self.items@),
            selected: self.selected,
            url: self.url@,
            year: self.year,
            month: self.month,
            day: self.day,
            icon: self.icon@,
            color: self.color,
            tooltip: self.tooltip@,
            horizontal: self.horizontal,
            enabled: self.enabled,
            columns: self.columns,
        }
    }
}

/// The index that a list control shows as selected: the stored index, held
/// to the last item where it lies beyond it, and 0 for an empty list.
pub open spec fn clamped_selection(selected: usize, len: nat) -> nat {
    if len == 0 {
        0
    } else if selected as nat >= len {
        (len - 1) as nat
    } else {
        selected as nat
    }
}

/// Holds a selected index within a list of `len` items: an index beyond
/// the last item moves to the last item, and to 0 where the list is empty.
pub fn clamp_selection(selected: usize, len: usize) -> (sel: usize)
    ensures
        sel == clamped_selection(selected, len as nat),
        len > 0 ==> sel < len,
        selected < len ==> sel == selected,
{
    if len == 0 {
        0
    } else if selected >= len {
        len - 1
    } else {
        selected
    }
}

impl WidgetProps {
    /// The selected index, held within the items as they are now.
    pub fn clamped_selection(&self) -> (sel: usize)
        ensures
            sel == clamped_selection(self@.selected, self@.items.len()),
            self@.items.len() > 0 ==> sel < self@.items.len(),
    {
        clamp_selection(self.selected, self.items.len())
    }

    /// Replaces the items. A selected index that no longer lies within the
    /// items moves to the last of them, or to 0 where there are none.
    pub fn set_items(&mut self, items: Vec<String>)
        ensures
            final(self)@ == (PropsView {
                items: texts(items@),
                selected: clamped_selection(old(self).selected, items@.len()) as usize,
                ..old(self)@
            }),
            items.len() > 0 ==> final(self)@.selected < items.len(),
    {
        self.selected = clamp_selection(self.selected, items.len());
        self.items = items;
    }
}

/// One control of a design.
#[derive(Clone, Debug, PartialEq, Eq)]
pub struct Widget {
    pub id: WidgetId,
    pub kind: WidgetKind,
    pub pos: Point,
    pub size: Size,
    /// Paint order on the canvas: a widget with a higher value is drawn
    /// later.
    pub z: i32,
    pub area: DockArea,
    pub props: WidgetProps,
}

/// What a [`Widget`] holds.
pub ghost struct WidgetView {
    pub id: u64,
    pub kind: WidgetKind,
    pub pos: Point,
    pub size: Size,
    pub z: i32,
    pub area: DockArea,
    pub props: PropsView,
}

impl View for Widget {
    type V = WidgetView;

    open spec fn view(&self) -> WidgetView {
        WidgetView {
            id: self.id@,
            kind: self.kind,
            pos: self.pos,
            size: self.size,
            z: self.z,
            area: self.area,
            props: self.props@,
        }
    }
}

/// The z-value of the widget that comes `rank` places in front of a widget
/// with the z-value `top`, held at the greatest z-value.
pub open spec fn spec_z_in_front(top: i32, rank: usize) -> i32 {
    if top + 1 + rank > i32::MAX {
        i32::MAX
    } else {
        (top + 1 + rank) as i32
    }
}

/// The z-value that brings a widget to the front: the `rank`-th of the
/// widgets that are brought there comes `rank` places in front of `top`,
/// the greatest z-value so far.
#[verifier::when_used_as_spec(spec_z_in_front)]
pub fn z_in_front(top: i32, rank: usize) -> (z: i32)
    ensures
        z == spec_z_in_front(top, rank),
        top < i32::MAX ==> z > top,
{
    let room: i64 = i32::MAX as i64 - top as i64 - 1;
    if room < 0 || rank as u64 > room as u64 {
        i32::MAX
    } else {
        (top as i64 + 1 + rank as i64) as i32
    }
}

/// The z-value of the widget that comes `rank` places behind a widget with
/// the z-value `bottom`, held at the least z-value.
pub open spec fn spec_z_behind(bottom: i32, rank: usize) -> i32 {
    if bottom - 1 - rank < i32::MIN {
        i32::MIN
    } else {
        (bottom - 1 - rank) as i32
    }
}

/// The z-value that sends a widget to the back: the `rank`-th of the
/// widgets that are sent there comes `rank` places behind `bottom`, the
/// least z-value so far.
#[verifier::when_used_as_spec(spec_z_behind)]
pub fn z_behind(bottom: i32, rank: usize) -> (z: i32)
    ensures
        z == spec_z_behind(bottom, rank),
        bottom > i32::MIN ==> z < bottom,
{
    let room: i64 = bottom as i64 - i32::MIN as i64 - 1;
    if room < 0 || rank as u64 > room as u64 {
        i32::MIN
    } else {
        (bottom as i64 - 1 - rank as i64) as i32
    }
}

/// The widget that a placement creates: the size and the properties of its
/// kind from the catalogue, and its handle, cut to 32 bits, as its z-value.
pub open spec fn created(id: u64, kind: WidgetKind, pos: Point, area: DockArea) -> WidgetView {
    WidgetView {
        id,
        kind,
        pos,
        size: kind.spec_default_size(),
        z: low_word_signed(id) as i32,
        area,
        props: kind.spec_default_props(),
    }
}

/// A copy of a list of strings.
pub fn copy_strings(items: &Vec<String>) -> (copy: Vec<String>)
    ensures
        texts(copy@) == texts(items@),
{
    let mut copy: Vec<String> = Vec::new();
    let mut i: usize = 0;
    while i < items.len()
        invariant
            i <= items.len(),
            copy@.len() == i,
            forall|j: int| 0 <= j < i ==> copy@[j]@ == items@[j]@,
        decreases items.len() - i,
    {
        copy.push(items[i].clone());
        i += 1;
    }
    assert(texts(copy@) =~= texts(items@));
    copy
}

impl WidgetProps {
    /// A copy of the properties that holds the same and shares nothing.
    pub fn duplicate(&self) -> (copy: WidgetProps)
        ensures
            copy@ == self@,
    {
        WidgetProps {
            text: self.text.clone(),
            checked: self.checked,
            value: self.value,
            min: self.min,
            max: self.max,
            items: copy_strings(&self.items),
            selected: self.selected,
            url: self.url.clone(),
            year: self.year,
            month: self.month,
            day: self.day,
            icon: self.icon.clone(),
            color: self.color,
            tooltip: self.tooltip.clone(),
            horizontal: self.horizontal,
            enabled: self.enabled,
            columns: self.columns,
        }
    }
}

/// The distance, in tenths of a point, by which a pasted widget is moved
/// right and down from the widget that it is a copy of.
pub const PASTE_OFFSET: i32 = 200;

/// A coordinate moved by the paste offset, and held at the greatest
/// coordinate where it would pass it.
pub open spec fn spec_moved(v: i32) -> i32 {
    if v > i32::MAX - PASTE_OFFSET {
        i32::MAX
    } else {
        (v + PASTE_OFFSET) as i32
    }
}

#[verifier::when_used_as_spec(spec_moved)]
pub fn moved(v: i32) -> (m: i32)
    ensures
        m == spec_moved(v),
{
    if v > i32::MAX - PASTE_OFFSET {
        i32::MAX
    } else {
        v + PASTE_OFFSET
    }
}

/// The widget that pasting a copy of `source` creates: the same widget
/// under the handle `id`, with the z-value of its handle, moved by the
/// paste offset.
pub open spec fn pasted(source: WidgetView, id: u64) -> WidgetView {
    WidgetView {
        id,
        z: low_word_signed(id) as i32,
        pos: Point { x: moved(source.pos.x), y: moved(source.pos.y) },
        ..source
    }
}

impl Widget {
    /// A detached copy of the widget: it holds the same and shares nothing
    /// with the widget or its project.
    pub fn duplicate(&self) -> (copy: Widget)
        ensures
            copy@ == self@,
    {
        Widget {
            id: self.id,
            kind: self.kind,
            pos: self.pos,
            size: self.size,
            z: self.z,
            area: self.area,
            props: self.props.duplicate(),
        }
    }

    /// Creates a widget of the given kind at `pos` in `area`, with the size
    /// and the properties that the catalogue gives its kind.
    pub fn create(id: WidgetId, kind: WidgetKind, pos: Point, area: DockArea) -> (w: Widget)
        ensures
            w@ == created(id@, kind, pos, area),
    {
        Widget {
            id,
            kind,
            pos,
            size: kind.default_size(),
            z: id.as_z(),
            area,
            props: kind.default_props(),
        }
    }
}

} // verus!
