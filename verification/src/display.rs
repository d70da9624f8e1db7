//! The 64 by 32 monochrome framebuffer that the draw opcode toggles.
//!
//! The host renders this buffer to a window; the core only flips pixels and
//! reports which pixel a toggle turned off.

use vstd::prelude::*;

verus! {

/// The pixel grid, stored row-major: pixel `(x, y)` sits at `y * 64 + x`.
pub struct Framebuffer {
    pixels: Vec<bool>,
}

impl View for Framebuffer {
    type V = Seq<bool>;

    closed spec fn view(&self) -> Seq<bool> {
        self.pixels@
    }
}

impl Framebuffer {
    /// The buffer holds exactly 64 * 32 pixels.
    pub open spec fn wf(&self) -> bool {
        self@.len() == 2048
    }

    /// The pixel at `(x, y)`, as the contracts speak of it.
    pub open spec fn pix(&self, x: int, y: int) -> bool {
        self@[y * 64 + x]
    }

    /// An all-dark framebuffer.
    pub fn new() -> (r: Self)
        ensures
            r.wf(),
            forall|i: int| 0 <= i < 2048 ==> !r@[i],
    {
        let mut pixels: Vec<bool> = Vec::new();
        let mut i: usize = 0;
        while i < 2048
            invariant
                i == pixels@.len(),
                i <= 2048,
                forall|j: int| 0 <= j < i ==> !pixels@[j],
            decreases 2048 - i,
        {
            pixels.push(false);
            i = i + 1;
        }
        Framebuffer { pixels }
    }

    /// Turn every pixel off.
    pub fn clear_screen(&mut self)
        requires
            old(self).wf(),
        ensures
            final(self).wf(),
            forall|i: int| 0 <= i < 2048 ==> !final(self)@[i],
    {
        let mut i: usize = 0;
        while i < 2048
            invariant
                self@.len() == 2048,
                i <= 2048,
                forall|j: int| 0 <= j < i ==> !self@[j],
            decreases 2048 - i,
        {
            self.pixels[i] = false;
            i = i + 1;
        }
    }

    /// Runtime check of the size invariant the contracts rely on.
    pub fn is_well_formed(&self) -> (r: bool)
        ensures
            r == self.wf(),
    {
        self.pixels.len() == 2048
    }

    /// Read the pixel at `(x, y)`.
    pub fn pixel(&self, x: usize, y: usize) -> (r: bool)
        requires
            self.wf(),
            x < 64,
            y < 32,
        ensures
            r == self.pix(x as int, y as int),
    {
        self.pixels[y * 64 + x]
    }

    /// Toggle the pixel at `(x, y)`; the result reports whether the toggle
    /// turned a lit pixel off.
    pub fn invert_pixel(&mut self, x: usize, y: usize) -> (r: bool)
        requires
            old(self).wf(),
            x < 64,
            y < 32,
        ensures
            final(self).wf(),
            r == old(self).pix(x as int, y as int),
            final(self)@ == old(self)@.update(y * 64 + x, !r),
    {
        let idx: usize = y * 64 + x;
        if self.pixels[idx] {
            self.pixels[idx] = false;
            true
        } else {
            self.pixels[idx] = true;
            false
        }
    }
}

} // verus!
