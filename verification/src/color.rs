use vstd::prelude::*;

verus! {

/// A four-component RGBA color value.
///
/// How the components are interpreted is the business of whatever renderer
/// the embedding application uses; this library only copies the value onto a
/// piece's cells and never computes with it.
#[derive(Copy, Clone, Debug, PartialEq, Eq, Structural)]
pub struct Rgba {
    pub r: u8,
    pub g: u8,
    pub b: u8,
    pub a: u8,
}

impl Rgba {
    pub fn new(r: u8, g: u8, b: u8, a: u8) -> (c: Rgba)
        ensures
            c.r == r,
            c.g == g,
            c.b == b,
            c.a == a,
    {
        Rgba { r, g, b, a }
    }
}

} // verus!
