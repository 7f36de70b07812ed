use vstd::prelude::*;

verus! {

/// An RGB colour; each channel is the bit pattern of a single-precision number.
#[derive(Clone, Copy, Debug, PartialEq, Eq, Structural)]
pub struct Color(pub u32, pub u32, pub u32);

impl Color {
    pub fn new(r: u32, g: u32, b: u32) -> (c: Self)
        ensures
            c.0 == r,
            c.1 == g,
            c.2 == b,
    {
        Color(r, g, b)
    }

    /// The three channels in the order red, green, blue.
    pub open spec fn channels(&self) -> Seq<u32> {
        seq![self.0, self.1, self.2]
    }

    pub fn color(&self) -> (c: [u32; 3])
        ensures
            c@ == self.channels(),
    {
        [self.0, self.1, self.2]
    }
}

} // verus!
