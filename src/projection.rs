//! The perspective projection's parameters.
use vstd::prelude::*;

verus! {

/// A perspective projection. The aspect ratio is `width / height`, kept as
/// the two integers so that it is exact; the field of view is in
/// thousandths of a degree and the clip planes in lattice steps.
#[derive(Clone, Copy, PartialEq, Eq, Structural, Debug)]
pub struct Projection {
    pub width: u32,
    pub height: u32,
    pub fovy: i64,
    pub znear: i64,
    pub zfar: i64,
}

impl Projection {
    pub open spec fn wf(&self) -> bool {
        self.width > 0 && self.height > 0
    }

    /// The aspect ratio as a fraction `(numerator, denominator)`.
    pub open spec fn aspect(&self) -> (int, int) {
        (self.width as int, self.height as int)
    }

    pub fn new(width: u32, height: u32, fovy: i64, znear: i64, zfar: i64) -> (r: Projection)
        requires
            width > 0,
            height > 0,
        ensures
            r.wf(),
            r == (Projection { width, height, fovy, znear, zfar }),
    {
        Projection { width, height, fovy, znear, zfar }
    }

    /// Takes the aspect ratio of a new surface size; a size with a zero side
    /// leaves the projection as it was.
    pub fn resize(&mut self, width: u32, height: u32)
        requires
            old(self).wf(),
        ensures
            final(self).wf(),
            if width > 0 && height > 0 {
                *final(self) == (Projection { width, height, ..*old(self) })
            } else {
                *final(self) == *old(self)
            },
    {
        if width > 0 && height > 0 {
            self.width = width;
            self.height = height;
        }
    }
}

} // verus!
