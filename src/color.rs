use vstd::prelude::*;

verus! {

/// Upper end of the output intensity range, in thousandths (`0.999`).
pub const INTENSITY_MAX_MILLI: u64 = 999;

/// Output scale factor, in thousandths (`255.999`).
pub const SCALE_MILLI: u64 = 255999;

/// One colour channel, the non-negative rational `num / den`.
#[derive(Clone, Copy, Debug, PartialEq, Eq)]
pub struct Channel {
    pub num: u32,
    pub den: u32,
}

impl Channel {
    pub open spec fn wf(self) -> bool {
        self.den > 0
    }

    /// The output level of the channel: the value clamped to `[0, 0.999]`,
    /// scaled by `255.999` and rounded down.
    pub open spec fn spec_quantize(self) -> int {
        let scale = SCALE_MILLI as int;
        let top = INTENSITY_MAX_MILLI as int;
        if self.num as int * 1000 > top * self.den as int {
            (scale * top) / 1000000int
        } else {
            (scale * self.num as int) / (1000 * self.den as int)
        }
    }

    pub fn new(num: u32, den: u32) -> (r: Self)
        requires
            den > 0,
        ensures
            r == (Channel { num, den }),
    {
        Channel { num, den }
    }

    /// The quantized output level of the channel, in `0..=255`.
    pub fn quantize(&self) -> (r: u32)
        requires
            self.wf(),
        ensures
            r == self.spec_quantize(),
            r <= 255,
    {
        let num: u64 = self.num as u64;
        let den: u64 = self.den as u64;
        if num * 1000 > INTENSITY_MAX_MILLI * den {
            assert(255999int * 999 / 1000000int == 255) by (nonlinear_arith);
            255
        } else {
            assert(SCALE_MILLI * num <= SCALE_MILLI * 4294967295) by (nonlinear_arith)
                requires num <= 4294967295;
            let q: u64 = (SCALE_MILLI * num) / (1000 * den);
            proof {
                lemma_scaled_level_bounded(num as int, den as int);
            }
            q as u32
        }
    }
}

/// With `num / den <= 0.999`, `floor(255.999 * num / den)` is at most 255.
proof fn lemma_scaled_level_bounded(num: int, den: int)
    requires
        0 <= num,
        0 < den,
        num * 1000 <= 999 * den,
    ensures
        (255999 * num) / (1000 * den) <= 255,
{
    assert(255999 * num < 256 * (1000 * den)) by (nonlinear_arith)
        requires
            0 <= num,
            0 < den,
            num * 1000 <= 999 * den,
    ;
    assert((255999 * num) / (1000 * den) < 256) by (nonlinear_arith)
        requires
            255999 * num < 256 * (1000 * den),
            0 < den,
            0 <= num,
    ;
}

/// A colour as three channels.
#[derive(Clone, Copy, Debug, PartialEq, Eq)]
pub struct Color {
    pub r: Channel,
    pub g: Channel,
    pub b: Channel,
}

/// The gray whose three channels all equal `c`.
pub open spec fn spec_gray(c: Channel) -> Color {
    Color { r: c, g: c, b: c }
}

/// Black: every channel `0 / 1`.
pub open spec fn spec_black() -> Color {
    spec_gray(Channel { num: 0, den: 1 })
}

/// White: every channel `1 / 1`.
pub open spec fn spec_white() -> Color {
    spec_gray(Channel { num: 1, den: 1 })
}

/// Entry `k` of the grayscale ramp with `steps` intermediate grays: black at
/// 0, white at `steps + 1`, and the gray `(k - 1) / steps` in between.
pub open spec fn grayscale_entry(steps: u32, k: int) -> Color {
    if k == 0 {
        spec_black()
    } else if k == steps + 1 {
        spec_white()
    } else {
        spec_gray(Channel { num: (k - 1) as u32, den: steps })
    }
}

impl Color {
    pub open spec fn wf(self) -> bool {
        self.r.wf() && self.g.wf() && self.b.wf()
    }

    pub fn new(r: Channel, g: Channel, b: Channel) -> (c: Self)
        ensures
            c == (Color { r, g, b }),
    {
        Color { r, g, b }
    }

    pub fn gray(level: Channel) -> (c: Self)
        ensures
            c == spec_gray(level),
    {
        Color { r: level, g: level, b: level }
    }
}

/// The colours that escape counts index, in order.
pub struct ColorPalette {
    pub colors: Vec<Color>,
    pub color_count: u32,
}

impl ColorPalette {
    /// The palette holds `color_count` well-formed colours.
    pub open spec fn wf(&self) -> bool {
        &&& self.colors@.len() == self.color_count
        &&& forall|k: int| 0 <= k < self.colors@.len() ==> (#[trigger] self.colors@[k]).wf()
    }

    /// Black, then `grayscale_count_max` grays rising from `0` in steps of
    /// `1 / grayscale_count_max`, then white.
    pub fn init_grayscale(grayscale_count_max: u32) -> (p: ColorPalette)
        requires
            grayscale_count_max <= u32::MAX - 2,
        ensures
            p.wf(),
            p.color_count == grayscale_count_max + 2,
            forall|k: int|
                0 <= k < p.colors@.len() ==> #[trigger] p.colors@[k] == grayscale_entry(
                    grayscale_count_max,
                    k,
                ),
            p.colors@.len() == grayscale_count_max + 2,
            p.colors@[0] == spec_black(),
            p.colors@[p.colors@.len() - 1] == spec_white(),
            grayscale_count_max == 0 ==> p.colors@ == seq![spec_black(), spec_white()],
    {
        let color_count: u32 = 1 + grayscale_count_max + 1;
        let mut colors: Vec<Color> = Vec::new();
        colors.push(Color::gray(Channel::new(0, 1)));
        let mut i: u32 = 0;
        while i < grayscale_count_max
            invariant
                i <= grayscale_count_max,
                colors@.len() == i + 1,
                forall|k: int|
                    0 <= k < colors@.len() ==> #[trigger] colors@[k] == grayscale_entry(
                        grayscale_count_max,
                        k,
                    ),
            decreases grayscale_count_max - i,
        {
            colors.push(Color::gray(Channel::new(i, grayscale_count_max)));
            i = i + 1;
        }
        colors.push(Color::gray(Channel::new(1, 1)));
        let p = ColorPalette { colors, color_count };
        assert forall|k: int| 0 <= k < p.colors@.len() implies (#[trigger] p.colors@[k]).wf() by {
            assert(p.colors@[k] == grayscale_entry(grayscale_count_max, k));
        }
        assert(p.colors@[0] == grayscale_entry(grayscale_count_max, 0));
        assert(p.colors@[p.colors@.len() - 1] == grayscale_entry(
            grayscale_count_max,
            grayscale_count_max + 1,
        ));
        if grayscale_count_max == 0 {
            assert(p.colors@ =~= seq![spec_black(), spec_white()]);
        }
        p
    }
}

} // verus!
