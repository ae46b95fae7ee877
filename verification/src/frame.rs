//! The 256 x 240 RGB framebuffer the picture processing unit draws into.

use vstd::prelude::*;

verus! {

pub const FRAME_WIDTH: usize = 256;

pub const FRAME_HEIGHT: usize = 240;

/// Render frame: one byte per colour channel, three per pixel, row-major.
pub struct Frame {
    pub data: Vec<u8>,
}

/// The framebuffer after one pixel write.  A write whose last byte would fall
/// outside the buffer is dropped whole.
pub open spec fn spec_set_pixel(data: Seq<u8>, x: int, y: int, rgb: (u8, u8, u8)) -> Seq<u8> {
    let base = y * 3 * (FRAME_WIDTH as int) + x * 3;
    if 0 <= base && base + 2 < data.len() {
        data.update(base, rgb.0).update(base + 1, rgb.1).update(base + 2, rgb.2)
    } else {
        data
    }
}

impl Frame {
    pub open spec fn wf(self) -> bool {
        self.data.len() == FRAME_WIDTH * FRAME_HEIGHT * 3
    }

    /// A black frame.
    pub fn new() -> (f: Frame)
        ensures
            f.wf(),
            f.data@ == Seq::new((FRAME_WIDTH * FRAME_HEIGHT * 3) as nat, |i: int| 0u8),
    {
        let mut data: Vec<u8> = Vec::new();
        let total: usize = FRAME_WIDTH * FRAME_HEIGHT * 3;
        let mut i: usize = 0;
        while i < total
            invariant
                i <= total,
                data@ == Seq::new(i as nat, |j: int| 0u8),
            decreases total - i,
        {
            data.push(0);
            proof {
                assert(data@ =~= Seq::new((i + 1) as nat, |j: int| 0u8));
            }
            i = i + 1;
        }
        Frame { data }
    }

    pub fn data(&self) -> (r: &Vec<u8>)
        ensures
            r == &self.data,
    {
        &self.data
    }

    /// Sets pixel colour; coordinates past the buffer are ignored.
    pub fn set_pixel(&mut self, x: usize, y: usize, rgb: (u8, u8, u8))
        requires
            x <= 0xFFFF,
            y <= 0xFFFF,
        ensures
            final(self).data@ == spec_set_pixel(old(self).data@, x as int, y as int, rgb),
    {
        let base: usize = y * 3 * FRAME_WIDTH + x * 3;
        if base + 2 < self.data.len() {
            self.data[base] = rgb.0;
            self.data[base + 1] = rgb.1;
            self.data[base + 2] = rgb.2;
        }
    }
}

} // verus!
