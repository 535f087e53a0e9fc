//! Draw commands that the game hands to a renderer, which only rasterises them.
use vstd::prelude::*;

verus! {

#[derive(Clone, Copy, Debug, PartialEq, Eq, Structural)]
pub enum Primitive {
    Rectangle,
    Ellipse,
}

/// Fill `primitive` inside the box at `(x, y)` of the given size.
#[derive(Clone, Copy, Debug, PartialEq, Eq, Structural)]
pub struct DrawCommand {
    pub primitive: Primitive,
    pub x: i64,
    pub y: i64,
    pub width: i64,
    pub height: i64,
}

} // verus!
