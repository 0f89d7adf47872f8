//! Scene description received from the remote service.
use vstd::prelude::*;

verus! {

/// Width and height of an area, in pixels.
#[derive(Clone, Copy, Debug, PartialEq, Eq, Structural)]
pub struct Dim {
    pub width: u64,
    pub height: u64,
}

/// A position, in pixels.
#[derive(Clone, Copy, Debug, PartialEq, Eq, Structural)]
pub struct Pos {
    pub x: u64,
    pub y: u64,
}

/// Red, green and blue channels; each is clamped to a byte when drawn.
#[derive(Clone, Copy, Debug, PartialEq, Eq, Structural)]
pub struct Color {
    pub r: u64,
    pub g: u64,
    pub b: u64,
}

/// How a rectangle is painted.
#[derive(Clone, Copy, Debug, PartialEq, Eq, Structural)]
pub enum Fill {
    /// Nothing is painted.
    Blank,
    Closed(Color),
    /// An outline; the stroke width is carried but drawing is one unit wide.
    Open(Color, u64),
}

#[derive(Clone, Copy, Debug, PartialEq, Eq, Structural)]
pub struct Rect {
    pub pos: Pos,
    pub dim: Dim,
}

/// Attributes of a text element.
#[derive(Clone, Copy, Debug, PartialEq, Eq, Structural)]
pub struct TextAtts {
    pub zoom: u64,
    pub fg_color: Color,
    pub bg_color: Color,
}

/// A node of the scene tree: its own rectangle and fill, and ordered children
/// that are placed relative to the node's position.
#[derive(Debug, PartialEq, Eq)]
pub struct Node {
    pub rect: Rect,
    pub fill: Fill,
    pub elms: Vec<Elm>,
}

/// An element of the scene tree.
#[derive(Debug, PartialEq, Eq)]
pub enum Elm {
    Node(Node),
    Rect(Rect, Fill),
    Text(String, TextAtts),
}

/// What the service asks to be shown.
#[derive(Debug, PartialEq, Eq)]
pub enum Out {
    Draw(Elm),
    Redraw(Vec<(String, Elm)>),
}

/// A render result, successful or not; both carry something to show.
#[derive(Debug, PartialEq, Eq)]
pub enum RenderOutcome {
    Success(Out),
    Failure(Out),
}

/// What an update call asks to be rendered in return.
#[derive(Clone, Copy, Debug, PartialEq, Eq, Structural)]
pub enum Request {
    Nothing,
    All(Dim),
}

/// The zero quantity.
pub fn nat_zero() -> (r: u64)
    ensures
        r == 0,
{
    0
}

} // verus!
