//! ASCII-art conversion: resample a frame to the target character grid, map
//! each sample's luminance through perceptual gamma correction, and emit one
//! ramp character per cell.

use vstd::prelude::*;

use crate::frame::Frame;
use crate::gamma::{gamma_level, gamma_of, lemma_gamma_bound, lemma_gamma_endpoints};
use crate::quality::{ramp_chars, ImageQuality};
use crate::resample::{resample_of, resample_rgb};

verus! {

/// Luminance of an RGB sample, quantised to an 8-bit level by rounding:
/// `L = 0.3·R + 0.59·G + 0.11·B`, kept in thousandths.
pub open spec fn luminance_level(r: u8, g: u8, b: u8) -> int {
    (300 * r + 590 * g + 110 * b + 500) / 1000
}

/// The ramp index of a luminance level against a ramp of length `n`:
/// `floor(g × (n−1))` with the gamma-corrected brightness `g` scaled to
/// `0 ..= 65535`.
pub open spec fn ascii_index_of(l: int, n: int) -> int {
    (gamma_level(l as u8) * (n - 1)) / 65535
}

/// The character a grid cell receives: the ramp entry of the cell's
/// gamma-corrected luminance, reading the RGB sample at `(x, y)` of a
/// `tw`-wide buffer.
pub open spec fn cell_char(pix: Seq<u8>, tw: int, x: int, y: int, ramp: Seq<char>) -> char {
    let base = 3 * (y * tw + x);
    ramp[ascii_index_of(
        luminance_level(pix[base], pix[base + 1], pix[base + 2]),
        ramp.len() as int,
    )]
}

/// Luminance levels stay within the 8-bit range.
pub proof fn lemma_luminance_range(r: u8, g: u8, b: u8)
    ensures
        0 <= luminance_level(r, g, b) <= 255,
{
    assert(0 <= (300 * r + 590 * g + 110 * b + 500) / 1000 <= 255) by (nonlinear_arith)
        requires
            r <= 255,
            g <= 255,
            b <= 255,
    ;
}

/// A fully bright sample maps to the last ramp entry.
pub proof fn lemma_index_white(n: int)
    requires
        1 <= n,
    ensures
        luminance_level(255, 255, 255) == 255,
        ascii_index_of(255, n) == n - 1,
{
    lemma_gamma_endpoints();
    assert((65535 * (n - 1)) / 65535 == n - 1) by (nonlinear_arith)
        requires
            n >= 1,
    ;
}

/// A fully dark sample maps to the first ramp entry.
pub proof fn lemma_index_black(n: int)
    requires
        1 <= n,
    ensures
        luminance_level(0, 0, 0) == 0,
        ascii_index_of(0, n) == 0,
{
    lemma_gamma_endpoints();
}

/// Ramp indices stay inside the ramp.
pub proof fn lemma_index_in_ramp(l: int, n: int)
    requires
        1 <= n,
        0 <= l <= 255,
    ensures
        0 <= ascii_index_of(l, n) < n,
{
    lemma_gamma_bound(l as u8);
    assert(0 <= (gamma_level(l as u8) * (n - 1)) / 65535 <= n - 1) by (nonlinear_arith)
        requires
            n >= 1,
            0 <= gamma_level(l as u8) <= 65535,
    ;
}

/// Quantises one RGB sample to its luminance level.
pub fn luminance(r: u8, g: u8, b: u8) -> (l: u8)
    ensures
        l == luminance_level(r, g, b),
{
    proof {
        lemma_luminance_range(r, g, b);
    }
    (((300 * (r as u32) + 590 * (g as u32) + 110 * (b as u32) + 500) / 1000) as u8)
}

/// Maps a luminance level to its ramp index for a ramp of length `n`.
pub fn ascii_index(l: u8, n: usize) -> (idx: usize)
    requires
        1 <= n <= 65536,
    ensures
        idx == ascii_index_of(l as int, n as int),
        idx < n,
{
    let g = gamma_of(l);
    proof {
        lemma_index_in_ramp(l as int, n as int);
    }
    ((g as usize) * (n - 1)) / 65535
}

/// Maps an RGB buffer that already has the target dimensions to its grid of
/// ramp characters, row by row.
pub fn ascii_grid(pixels: &Vec<u8>, tw: usize, th: usize, ramp: &str) -> (grid: Vec<Vec<char>>)
    requires
        pixels@.len() == 3 * tw * th,
        tw <= 16384,
        th <= 16384,
        1 <= ramp@.len() <= 256,
    ensures
        grid@.len() == th,
        forall|y: int| 0 <= y < th ==> (#[trigger] grid@[y])@.len() == tw,
        forall|y: int, x: int|
            0 <= y < th && 0 <= x < tw ==> (#[trigger] grid@[y]@[x]) == cell_char(
                pixels@,
                tw as int,
                x,
                y,
                ramp@,
            ),
{
    let n = ramp.unicode_len();
    let mut grid: Vec<Vec<char>> = Vec::new();
    let mut y: usize = 0;
    while y < th
        invariant
            y <= th,
            grid@.len() == y,
            n == ramp@.len(),
            1 <= n <= 256,
            tw <= 16384,
            th <= 16384,
            pixels@.len() == 3 * tw * th,
            forall|yy: int| 0 <= yy < y ==> (#[trigger] grid@[yy])@.len() == tw,
            forall|yy: int, x: int|
                0 <= yy < y && 0 <= x < tw ==> (#[trigger] grid@[yy]@[x]) == cell_char(
                    pixels@,
                    tw as int,
                    x,
                    yy,
                    ramp@,
                ),
        decreases th - y,
    {
        let mut row: Vec<char> = Vec::new();
        let mut x: usize = 0;
        while x < tw
            invariant
                x <= tw,
                y < th,
                row@.len() == x,
                n == ramp@.len(),
                1 <= n <= 256,
                tw <= 16384,
                th <= 16384,
                pixels@.len() == 3 * tw * th,
                forall|xx: int|
                    0 <= xx < x ==> (#[trigger] row@[xx]) == cell_char(
                        pixels@,
                        tw as int,
                        xx,
                        y as int,
                        ramp@,
                    ),
            decreases tw - x,
        {
            proof {
                assert(3 * (y * tw + x) + 3 <= 3 * tw * th && 3 * tw * th <= 805306368)
                    by (nonlinear_arith)
                    requires
                        0 <= x < tw,
                        0 <= y < th,
                        tw <= 16384,
                        th <= 16384,
                ;
            }
            let base: usize = 3 * (y * tw + x);
            let l = luminance(pixels[base], pixels[base + 1], pixels[base + 2]);
            let idx = ascii_index(l, n);
            let c = ramp.get_char(idx);
            row.push(c);
            x = x + 1;
        }
        grid.push(row);
        y = y + 1;
    }
    grid
}

/// Resamples a frame to exactly `target_width × target_height` with the
/// quality level's filter and maps each sample's gamma-corrected luminance to
/// a ramp character. A zero target dimension yields an empty grid, not an
/// error. The conversion is deterministic in its inputs, and an all-bright or
/// all-dark frame fills the grid with the ramp's last or first character.
/// The bound on the source-to-target ratio is a machine limit: it keeps the
/// trusted resampler's floating-point rounding below half a quantisation
/// step, so that the uniform-frame guarantees hold of the real arithmetic.
pub fn convert(
    frame: &Frame,
    target_width: u32,
    target_height: u32,
    quality: ImageQuality,
) -> (grid: Vec<Vec<char>>)
    requires
        frame.wf(),
        target_width <= 16384,
        target_height <= 16384,
        target_width > 0 && target_height > 0 ==> frame.spec_width() <= 1024 * target_width
            && frame.spec_height() <= 1024 * target_height,
    ensures
        (target_width == 0 || target_height == 0) ==> grid@.len() == 0,
        target_width > 0 && target_height > 0 ==> {
            let resampled = resample_of(
                frame.data(),
                frame.spec_width() as int,
                frame.spec_height() as int,
                target_width as int,
                target_height as int,
                quality.spec_filter().spec_code(),
            );
            &&& grid@.len() == target_height
            &&& forall|y: int|
                0 <= y < target_height ==> (#[trigger] grid@[y])@.len() == target_width
            &&& forall|y: int, x: int|
                0 <= y < target_height && 0 <= x < target_width ==> (#[trigger] grid@[y]@[x])
                    == cell_char(resampled, target_width as int, x, y, ramp_chars(quality))
        },
        (target_width > 0 && target_height > 0 && (forall|i: int|
            0 <= i < frame.data().len() ==> frame.data()[i] == 255)) ==> forall|y: int, x: int|
            0 <= y < target_height && 0 <= x < target_width ==> (#[trigger] grid@[y]@[x])
                == ramp_chars(quality).last(),
        (target_width > 0 && target_height > 0 && (forall|i: int|
            0 <= i < frame.data().len() ==> frame.data()[i] == 0)) ==> forall|y: int, x: int|
            0 <= y < target_height && 0 <= x < target_width ==> (#[trigger] grid@[y]@[x])
                == ramp_chars(quality)[0],
{
    if target_width == 0 || target_height == 0 {
        return Vec::new();
    }
    let ramp = quality.get_ascii_chars();
    let filter = quality.get_filter();
    let resampled = resample_rgb(
        frame.pixels(),
        frame.width(),
        frame.height(),
        target_width,
        target_height,
        filter,
    );
    let tw = target_width as usize;
    let th = target_height as usize;
    proof {
        assert(ramp_chars(quality).len() <= 256) by {
            crate::quality::lemma_ramp_lengths();
        }
    }
    let grid = ascii_grid(&resampled, tw, th, ramp);
    proof {
        let n = ramp_chars(quality).len() as int;
        assert(frame.data().len() >= 3) by (nonlinear_arith)
            requires
                frame.data().len() == 3 * frame.spec_width() * frame.spec_height(),
                frame.spec_width() >= 1,
                frame.spec_height() >= 1,
        ;
        if forall|i: int| 0 <= i < frame.data().len() ==> frame.data()[i] == 255 {
            lemma_index_white(n);
            assert forall|i: int, j: int|
                0 <= i < frame.data().len() && 0 <= j < frame.data().len()
                implies frame.data()[i] == frame.data()[j] by {}
            assert(forall|j: int| 0 <= j < resampled@.len() ==> resampled@[j] == frame.data()[0]);
            assert(forall|j: int| 0 <= j < resampled@.len() ==> resampled@[j] == 255);
            assert forall|y: int, x: int|
                0 <= y < target_height && 0 <= x < target_width implies (#[trigger] grid@[y]@[x])
                == ramp_chars(quality).last() by {
                assert(3 * (y * tw + x) + 3 <= 3 * tw * th && 0 <= 3 * (y * tw + x))
                    by (nonlinear_arith)
                    requires
                        0 <= x < tw,
                        0 <= y < th,
                ;
            }
        }
        if forall|i: int| 0 <= i < frame.data().len() ==> frame.data()[i] == 0 {
            lemma_index_black(n);
            assert forall|i: int, j: int|
                0 <= i < frame.data().len() && 0 <= j < frame.data().len()
                implies frame.data()[i] == frame.data()[j] by {}
            assert(forall|j: int| 0 <= j < resampled@.len() ==> resampled@[j] == frame.data()[0]);
            assert(forall|j: int| 0 <= j < resampled@.len() ==> resampled@[j] == 0);
            assert forall|y: int, x: int|
                0 <= y < target_height && 0 <= x < target_width implies (#[trigger] grid@[y]@[x])
                == ramp_chars(quality)[0] by {
                assert(3 * (y * tw + x) + 3 <= 3 * tw * th && 0 <= 3 * (y * tw + x))
                    by (nonlinear_arith)
                    requires
                        0 <= x < tw,
                        0 <= y < th,
                ;
            }
        }
    }
    grid
}

} // verus!
