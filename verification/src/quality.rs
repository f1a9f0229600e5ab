//! Quality profiles: each quality level maps to a resampling filter and an
//! ASCII luminance ramp, ordered from the visually darkest character to the
//! brightest.

use vstd::prelude::*;

verus! {

/// Resampling filter used when scaling a frame to the target character grid.
#[derive(Debug, Clone, Copy, PartialEq, Eq, Structural)]
pub enum ResampleFilter {
    Nearest,
    Triangle,
    Lanczos3,
}

impl ResampleFilter {
    /// Relative computational cost of the filter: nearest-neighbour is the
    /// cheapest and crudest, Lanczos the most expensive and smoothest.
    pub open spec fn spec_cost(self) -> int {
        match self {
            ResampleFilter::Nearest => 0,
            ResampleFilter::Triangle => 1,
            ResampleFilter::Lanczos3 => 2,
        }
    }

    pub fn cost(&self) -> (c: u8)
        ensures
            c == self.spec_cost(),
    {
        match self {
            ResampleFilter::Nearest => 0,
            ResampleFilter::Triangle => 1,
            ResampleFilter::Lanczos3 => 2,
        }
    }
}

/// Image quality settings.
#[derive(Debug, Clone, Copy, PartialEq, Eq, Structural)]
pub enum ImageQuality {
    Low,
    Medium,
    High,
}

/// The ASCII luminance ramp of a quality level, darkest character first.
pub open spec fn ramp_chars(q: ImageQuality) -> Seq<char> {
    match q {
        ImageQuality::Low => " .:-=+*#%@"@,
        ImageQuality::Medium => " .:-=+*#%@█"@,
        ImageQuality::High => " .'`^\",:;Il!i><~+_-?][}{1)(|\\/tfjrxnuvczXYUJCLQ0OZmwqpdbkhao*#MW&8%B@$"@,
    }
}

impl ImageQuality {
    /// The resampling filter of this quality level.
    pub open spec fn spec_filter(self) -> ResampleFilter {
        match self {
            ImageQuality::Low => ResampleFilter::Nearest,
            ImageQuality::Medium => ResampleFilter::Triangle,
            ImageQuality::High => ResampleFilter::Lanczos3,
        }
    }

    pub fn get_filter(&self) -> (f: ResampleFilter)
        ensures
            f == self.spec_filter(),
    {
        match self {
            ImageQuality::Low => ResampleFilter::Nearest,
            ImageQuality::Medium => ResampleFilter::Triangle,
            ImageQuality::High => ResampleFilter::Lanczos3,
        }
    }

    pub fn get_ascii_chars(&self) -> (r: &'static str)
        ensures
            r@ == ramp_chars(*self),
            r@.len() > 0,
    {
        match self {
            ImageQuality::Low => {
                let s = " .:-=+*#%@";
                proof {
                    reveal_strlit(" .:-=+*#%@");
                }
                s
            },
            ImageQuality::Medium => {
                let s = " .:-=+*#%@█";
                proof {
                    reveal_strlit(" .:-=+*#%@█");
                }
                s
            },
            ImageQuality::High => {
                let s = " .'`^\",:;Il!i><~+_-?][}{1)(|\\/tfjrxnuvczXYUJCLQ0OZmwqpdbkhao*#MW&8%B@$";
                proof {
                    reveal_strlit(" .'`^\",:;Il!i><~+_-?][}{1)(|\\/tfjrxnuvczXYUJCLQ0OZmwqpdbkhao*#MW&8%B@$");
                }
                s
            },
        }
    }
}

/// The concrete ramp lengths: ten characters at Low, eleven at Medium and
/// seventy at High.
pub proof fn lemma_ramp_lengths()
    ensures
        ramp_chars(ImageQuality::Low).len() == 10,
        ramp_chars(ImageQuality::Medium).len() == 11,
        ramp_chars(ImageQuality::High).len() == 70,
        forall|q: ImageQuality| 1 <= (#[trigger] ramp_chars(q)).len() <= 256,
{
    reveal_strlit(" .:-=+*#%@");
    reveal_strlit(" .:-=+*#%@█");
    reveal_strlit(" .'`^\",:;Il!i><~+_-?][}{1)(|\\/tfjrxnuvczXYUJCLQ0OZmwqpdbkhao*#MW&8%B@$");
    assert forall|q: ImageQuality| 1 <= (#[trigger] ramp_chars(q)).len() <= 256 by {
        match q {
            ImageQuality::Low => {},
            ImageQuality::Medium => {},
            ImageQuality::High => {},
        }
    }
}

/// Coarser quality levels never use a longer ramp: the ramp lengths are
/// ordered Low ≤ Medium ≤ High, and the filter costs are ordered the same
/// way, with Low the cheapest filter and High the costliest.
pub proof fn lemma_quality_ordering()
    ensures
        ramp_chars(ImageQuality::Low).len() <= ramp_chars(ImageQuality::Medium).len(),
        ramp_chars(ImageQuality::Medium).len() <= ramp_chars(ImageQuality::High).len(),
        ImageQuality::Low.spec_filter().spec_cost()
            <= ImageQuality::Medium.spec_filter().spec_cost(),
        ImageQuality::Medium.spec_filter().spec_cost()
            <= ImageQuality::High.spec_filter().spec_cost(),
        forall|q: ImageQuality|
            ImageQuality::Low.spec_filter().spec_cost() <= (#[trigger] q.spec_filter()).spec_cost()
                <= ImageQuality::High.spec_filter().spec_cost(),
{
    reveal_strlit(" .:-=+*#%@");
    reveal_strlit(" .:-=+*#%@█");
    reveal_strlit(" .'`^\",:;Il!i><~+_-?][}{1)(|\\/tfjrxnuvczXYUJCLQ0OZmwqpdbkhao*#MW&8%B@$");
    assert forall|q: ImageQuality|
        ImageQuality::Low.spec_filter().spec_cost() <= (#[trigger] q.spec_filter()).spec_cost()
            <= ImageQuality::High.spec_filter().spec_cost() by {
        match q {
            ImageQuality::Low => {},
            ImageQuality::Medium => {},
            ImageQuality::High => {},
        }
    }
}

} // verus!
