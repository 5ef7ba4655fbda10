//! Styling primitives of paths.

use vstd::prelude::*;

verus! {

/// Where the stroke of a closed shape is drawn.
#[derive(Debug, Clone, Copy, PartialEq, Eq, Structural)]
pub enum StrokePosition {
    /// stroke on the inside of the closed shape
    Inside,
    /// stroke on the outside of the closed shape
    Outside,
    /// stroke evenly distributed along both sides of the path
    Center,
}

impl Default for StrokePosition {
    /// The stroke is centred on the path unless told otherwise.
    fn default() -> (r: Self)
        ensures
            r == StrokePosition::Center,
    {
        StrokePosition::Center
    }
}

/// An RGBA raster image with 8-bit channels: its size in pixels and its
/// bytes, four per pixel, row by row.
pub struct RgbRaster {
    pub width: u32,
    pub height: u32,
    pub data: Vec<u8>,
}

impl PartialEq for RgbRaster {
    /// Two rasters are equal when they have the same size and the same bytes.
    fn eq(&self, other: &Self) -> (r: bool) {
        if self.width != other.width || self.height != other.height {
            return false;
        }
        if self.data.len() != other.data.len() {
            return false;
        }
        let n = self.data.len();
        let mut i: usize = 0;
        while i < n
            invariant
                i <= n,
                n == self.data@.len(),
                n == other.data@.len(),
                forall|k: int| 0 <= k < i ==> self.data@[k] == other.data@[k],
            decreases n - i,
        {
            if self.data[i] != other.data[i] {
                return false;
            }
            i = i + 1;
        }
        assert(self.data@ =~= other.data@);
        true
    }
}

impl vstd::std_specs::cmp::PartialEqSpecImpl for RgbRaster {
    open spec fn obeys_eq_spec() -> bool {
        true
    }

    open spec fn eq_spec(&self, other: &Self) -> bool {
        self.width == other.width && self.height == other.height && self.data@ == other.data@
    }
}

} // verus!
