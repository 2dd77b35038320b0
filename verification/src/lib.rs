//! Document model and code generator of a visual designer for immediate-mode
//! GUI layouts.
//!
//! A [`project::Project`] holds the widgets that were placed on the canvas;
//! [`catalogue`] says what a new widget of each kind starts with, and
//! [`outline`] reads the indented lines of a tree. [`codegen::generate`]
//! turns a project into the source text of a program that rebuilds the same
//! interface.
//!
//! Every function states what it returns over a mathematical view of its
//! arguments: a text is a sequence of characters, a project the sequence of
//! what its widgets hold. Numbers with a fraction are held in fixed point,
//! lengths in tenths of a point and values in thousandths, so that the text
//! that is generated for them is exact.

pub mod text;
pub mod escape;
pub mod widget;
pub mod catalogue;
pub mod project;
pub mod selection;
pub mod outline;
pub mod codegen;

pub use crate::codegen::{CodeGenFormat, generate};
pub use crate::escape::escape;
pub use crate::outline::{OutlineNode, parse_outline};
pub use crate::project::{IdSource, Project};
pub use crate::widget::{
    DockArea, Point, Rgba, Size, Widget, WidgetId, WidgetKind, WidgetProps,
};
