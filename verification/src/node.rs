//! The scene tree that the emitter reads.
//!
//! Geometry (sizes, positions, anchors, scales) is resolved and rendered to
//! text before a node reaches the emitter; the node carries the rest of what
//! the emitter decides on as plain values.

use vstd::prelude::*;
use crate::attrs::Attrs;

verus! {

/// Direction in which a layout container stacks its children.
pub enum Orientation {
    Horizontal,
    Vertical,
}

/// The kind of widget a node stands for.
pub enum WidgetKind {
    Layout(Orientation),
    Button,
    Text,
    Image,
    ScrollView,
    ListView,
    TextField,
    CheckBox,
    Slider,
    ProgressBar,
    /// A widget named by the page author, e.g. `PageView` or `TextBMFont`.
    Unknown(String),
}

/// The base properties of a node, each coordinate already rendered as text.
pub struct Geometry {
    pub position: (String, String),
    pub scale: (String, String),
    pub anchor: (String, String),
    pub size: (String, String),
    pub pre_position: (String, String),
    pub pre_size: (String, String),
}

/// Visual and layout properties of a node.
pub struct NodeLayout {
    /// Resolved base properties.
    pub geometry: Geometry,
    /// Rotation in degrees, as text, when the node is rotated.
    pub rotation: Option<String>,
    /// The horizontal scale is negative.
    pub flip_x: bool,
    /// The vertical scale is negative.
    pub flip_y: bool,
    pub visible: Option<bool>,
    pub z_order: Option<i32>,
    /// The gap between list items, rounded to whole pixels.
    pub item_margin: Option<i32>,
    /// Text colour (red, green, blue).
    pub color: Option<(u8, u8, u8)>,
    /// Opacity scaled to 0..=255.
    pub alpha: Option<u8>,
    /// Panel background colour (red, green, blue, alpha).
    pub background_color: Option<(u8, u8, u8, u8)>,
    pub background_image: Option<String>,
    /// Progress of a progress bar in percent, rounded, before it is clamped to 0..=100.
    pub progress: i32,
}

/// A node of the scene tree.
pub struct UiNode {
    pub name: String,
    pub widget: WidgetKind,
    pub attrs: Attrs,
    pub layout: NodeLayout,
    pub children: Vec<UiNode>,
}

/// Number of nodes in a tree.
pub open spec fn node_count(n: UiNode) -> nat
    decreases n,
{
    1 + forest_count(n.children@)
}

/// Number of nodes in a list of trees.
pub open spec fn forest_count(cs: Seq<UiNode>) -> nat
    decreases cs,
{
    if cs.len() == 0 {
        0
    } else {
        forest_count(cs.drop_last()) + node_count(cs.last())
    }
}

/// Number of levels of a tree (one for a node without children).
pub open spec fn node_depth(n: UiNode) -> nat
    decreases n,
{
    1 + forest_depth(n.children@)
}

/// The greatest number of levels among a list of trees.
pub open spec fn forest_depth(cs: Seq<UiNode>) -> nat
    decreases cs,
{
    if cs.len() == 0 {
        0
    } else {
        let a = forest_depth(cs.drop_last());
        let b = node_depth(cs.last());
        if a < b { b } else { a }
    }
}

} // verus!
