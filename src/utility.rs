use vstd::prelude::*;

verus! {

/// Helpers that draw random values.
pub struct Utility;

/// A closed range `[min, max]` of `u32` values.
#[derive(Clone, Copy, Debug, PartialEq, Eq)]
pub struct IntervalU32 {
    pub min: u32,
    pub max: u32,
}

impl IntervalU32 {
    /// `min <= x <= max`.
    pub open spec fn spec_contains(self, x: int) -> bool {
        self.min <= x <= self.max
    }

    /// `x` projected into `[min, max]`.
    pub open spec fn spec_clamp(self, x: u32) -> u32 {
        if x < self.min {
            self.min
        } else if x > self.max {
            self.max
        } else {
            x
        }
    }

    pub fn new(min: u32, max: u32) -> (r: Self)
        ensures
            r.min == min,
            r.max == max,
    {
        IntervalU32 { min, max }
    }

    pub fn size(&self) -> (r: u32)
        requires
            self.min <= self.max,
        ensures
            r == self.max - self.min,
    {
        self.max - self.min
    }

    pub fn adj_min(&self, x: u32) -> (r: u32)
        requires
            self.min + x <= u32::MAX,
        ensures
            r == self.min + x,
    {
        self.min + x
    }

    pub fn adj_max(&self, x: u32) -> (r: u32)
        requires
            self.max + x <= u32::MAX,
        ensures
            r == self.max + x,
    {
        self.max + x
    }

    pub fn contains(&self, x: u32) -> (r: bool)
        ensures
            r == self.spec_contains(x as int),
    {
        self.min <= x && x <= self.max
    }

    pub fn surrounds(&self, x: u32) -> (r: bool)
        ensures
            r == (self.min < x && x < self.max),
    {
        self.min < x && x < self.max
    }

    /// Projects `x` into the range; on a range with `min <= max` the result
    /// lies in it, and a value already in it comes back unchanged.
    pub fn clamp(&self, x: u32) -> (r: u32)
        ensures
            r == self.spec_clamp(x),
            self.min <= self.max ==> self.spec_contains(r as int),
            self.spec_contains(x as int) ==> r == x,
    {
        if x < self.min {
            return self.min;
        }
        if x > self.max {
            return self.max;
        }
        x
    }
}

/// Relies on rand's `Rng::gen_range` on the thread-local generator: for a
/// non-empty half-open range `lo..hi` it returns a value in that range (it
/// panics only on an empty one).
#[verifier::external_body]
fn draw_u32_below(lo: u32, hi: u32) -> (r: u32)
    requires
        lo < hi,
    ensures
        lo <= r < hi,
{
    rand::Rng::gen_range(&mut rand::thread_rng(), lo..hi)
}

impl Utility {
    /// A random value of the half-open range `[min, max)`; the range must be
    /// non-empty.
    pub fn random_int_range(interval_u32: IntervalU32) -> (r: u32)
        requires
            interval_u32.min < interval_u32.max,
        ensures
            interval_u32.min <= r < interval_u32.max,
    {
        draw_u32_below(interval_u32.min, interval_u32.max)
    }
}

} // verus!
