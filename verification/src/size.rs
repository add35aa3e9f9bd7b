use vstd::prelude::*;

verus! {

/// A width and height in whole cells, as a tile grid uses.
#[derive(Copy, Clone, Debug, PartialEq, Eq, Structural)]
pub struct Size {
    pub width: u32,
    pub height: u32,
}

impl Size {
    /// How many cells a row-major grid of this size holds.
    pub fn stride(&self) -> (r: usize)
        requires
            self.width * self.height <= usize::MAX,
        ensures
            r == self.width * self.height,
    {
        self.width as usize * self.height as usize
    }
}

impl From<(u32, u32)> for Size {
    fn from(t: (u32, u32)) -> (r: Size) {
        Size { width: t.0, height: t.1 }
    }
}

impl vstd::std_specs::convert::FromSpecImpl<(u32, u32)> for Size {
    open spec fn obeys_from_spec() -> bool {
        true
    }

    open spec fn from_spec(t: (u32, u32)) -> Size {
        Size { width: t.0, height: t.1 }
    }
}

} // verus!
