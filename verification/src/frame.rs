//! A frame is an owned buffer of RGB samples: three bytes per pixel, rows
//! stored top to bottom. Any source that is not already RGB must be
//! normalised before a frame is built.

use vstd::prelude::*;

verus! {

/// Largest accepted frame edge, in pixels.
pub const MAX_FRAME_DIM: u32 = 16384;

/// One decoded raster image: width, height, and an RGB sample buffer of
/// exactly `3 * width * height` bytes.
pub struct Frame {
    pub width: u32,
    pub height: u32,
    pub pixels: Vec<u8>,
}

impl Frame {
    /// Well-formedness: positive dimensions within bounds, and a buffer of
    /// exactly three bytes per pixel.
    pub open spec fn wf(self) -> bool {
        &&& 1 <= self.width <= MAX_FRAME_DIM
        &&& 1 <= self.height <= MAX_FRAME_DIM
        &&& self.pixels@.len() == 3 * self.width * self.height
    }

    pub open spec fn spec_width(self) -> u32 {
        self.width
    }

    pub open spec fn spec_height(self) -> u32 {
        self.height
    }

    pub open spec fn data(self) -> Seq<u8> {
        self.pixels@
    }

    /// Builds a frame from raw RGB bytes; rejects dimensions out of range or
    /// a buffer whose length does not match them.
    pub fn from_rgb(width: u32, height: u32, pixels: Vec<u8>) -> (r: Option<Frame>)
        ensures
            match r {
                Some(f) => {
                    &&& f.wf()
                    &&& f.spec_width() == width
                    &&& f.spec_height() == height
                    &&& f.data() == pixels@
                },
                None => {
                    width == 0 || width > MAX_FRAME_DIM || height == 0 || height > MAX_FRAME_DIM
                        || pixels@.len() != 3 * width * height
                },
            },
    {
        if width == 0 || width > MAX_FRAME_DIM || height == 0 || height > MAX_FRAME_DIM {
            return None;
        }
        proof {
            assert(3 * (width as int) * (height as int) <= 3 * 16384 * 16384)
                by (nonlinear_arith)
                requires
                    1 <= width <= 16384,
                    1 <= height <= 16384,
            ;
        }
        let expected: usize = 3 * (width as usize) * (height as usize);
        if pixels.len() != expected {
            return None;
        }
        Some(Frame { width, height, pixels })
    }

    /// Builds a frame with every sample set to the same byte.
    pub fn uniform(width: u32, height: u32, value: u8) -> (r: Option<Frame>)
        ensures
            match r {
                Some(f) => {
                    &&& f.wf()
                    &&& f.spec_width() == width
                    &&& f.spec_height() == height
                    &&& forall|i: int| 0 <= i < f.data().len() ==> f.data()[i] == value
                },
                None => width == 0 || width > MAX_FRAME_DIM || height == 0 || height
                    > MAX_FRAME_DIM,
            },
    {
        if width == 0 || width > MAX_FRAME_DIM || height == 0 || height > MAX_FRAME_DIM {
            return None;
        }
        proof {
            assert(3 * (width as int) * (height as int) <= 3 * 16384 * 16384)
                by (nonlinear_arith)
                requires
                    1 <= width <= 16384,
                    1 <= height <= 16384,
            ;
        }
        let n: usize = 3 * (width as usize) * (height as usize);
        let mut pixels: Vec<u8> = Vec::new();
        let mut i: usize = 0;
        while i < n
            invariant
                i <= n,
                pixels@.len() == i,
                forall|k: int| 0 <= k < i ==> pixels@[k] == value,
            decreases n - i,
        {
            pixels.push(value);
            i = i + 1;
        }
        Some(Frame { width, height, pixels })
    }

    pub fn width(&self) -> (w: u32)
        ensures
            w == self.spec_width(),
    {
        self.width
    }

    pub fn height(&self) -> (h: u32)
        ensures
            h == self.spec_height(),
    {
        self.height
    }

    pub fn pixels(&self) -> (p: &Vec<u8>)
        ensures
            p@ == self.data(),
    {
        &self.pixels
    }

    /// Copies the frame; reads from the cache hand out copies, never shared
    /// mutable references.
    pub fn duplicate(&self) -> (r: Frame)
        ensures
            r.spec_width() == self.spec_width(),
            r.spec_height() == self.spec_height(),
            r.data() == self.data(),
            self.wf() ==> r.wf(),
    {
        let mut pixels: Vec<u8> = Vec::new();
        let n = self.pixels.len();
        let mut i: usize = 0;
        while i < n
            invariant
                i <= n,
                n == self.pixels@.len(),
                pixels@.len() == i,
                forall|k: int| 0 <= k < i ==> pixels@[k] == self.pixels@[k],
            decreases n - i,
        {
            pixels.push(self.pixels[i]);
            i = i + 1;
        }
        proof {
            assert(pixels@ =~= self.pixels@);
        }
        Frame { width: self.width, height: self.height, pixels }
    }
}

} // verus!
