//! The indicator light that shows one bit: a filled circle of a given
//! radius, lit or dark.
use vstd::prelude::*;

verus! {

/// Colour of an indicator: red when its bit is set, black when it is clear.
#[derive(Clone, Copy, Debug, PartialEq, Eq, Structural)]
pub enum Lamp {
    Red,
    Black,
}

/// A round indicator; it takes a square of side twice its radius.
#[derive(Clone, Copy, Debug, PartialEq, Eq, Structural)]
pub struct Circle {
    pub radius: u32,
    pub color: Lamp,
}

impl Circle {
    pub fn new(radius: u32, color: Lamp) -> (r: Circle)
        ensures
            r.radius == radius,
            r.color == color,
    {
        Circle { radius, color }
    }

    /// Width of the indicator's bounding square: its diameter.
    pub fn width(&self) -> (r: u64)
        ensures
            r == 2 * self.radius,
    {
        2 * (self.radius as u64)
    }

    /// Height of the indicator's bounding square: its diameter.
    pub fn height(&self) -> (r: u64)
        ensures
            r == 2 * self.radius,
    {
        2 * (self.radius as u64)
    }

    /// Rounding of the indicator's corners: its radius, which makes the
    /// square a circle.
    pub fn border_radius(&self) -> (r: u32)
        ensures
            r == self.radius,
    {
        self.radius
    }
}

/// The colour of a bit's indicator.
pub fn bit2color(bit: bool) -> (r: Lamp)
    ensures
        r == (if bit { Lamp::Red } else { Lamp::Black }),
{
    if bit {
        Lamp::Red
    } else {
        Lamp::Black
    }
}

/// The indicator of one bit: lit in red when the bit is set, black otherwise.
pub fn indicator(radius: u32, bit: bool) -> (r: Circle)
    ensures
        r.radius == radius,
        r.color == (if bit { Lamp::Red } else { Lamp::Black }),
{
    Circle::new(radius, bit2color(bit))
}

} // verus!
