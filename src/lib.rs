pub mod color;
pub mod escape;
pub mod ppm;
pub mod utility;

use vstd::prelude::*;
use crate::color::{Color, ColorPalette};
use crate::escape::EscapeCounter;
use crate::ppm::{header_text, pixel_text, push_decimal, NEWLINE, SPACE};
use crate::utility::IntervalU32;

verus! {

/// The pixel grid: columns `0..x.max`, rows `0..y.max`.
#[derive(Clone, Copy, Debug, PartialEq, Eq)]
pub struct ImageDim {
    pub x: IntervalU32,
    pub y: IntervalU32,
}

impl ImageDim {
    pub fn new(x_max: u32, y_max: u32) -> (d: Self)
        ensures
            d.x == (IntervalU32 { min: 0, max: x_max }),
            d.y == (IntervalU32 { min: 0, max: y_max }),
    {
        let x: IntervalU32 = IntervalU32::new(0, x_max);
        let y: IntervalU32 = IntervalU32::new(0, y_max);
        ImageDim { x, y }
    }
}

/// The text of the pixels whose escape counts are `escapes`, in order, each
/// drawn from `palette` at its count.
pub open spec fn pixels_text(palette: Seq<Color>, escapes: Seq<EscapeCounter>) -> Seq<u8>
    decreases escapes.len(),
{
    if escapes.len() == 0 {
        Seq::empty()
    } else {
        pixels_text(palette, escapes.drop_last()) + pixel_text(
            palette[escapes.last().iterations() as int],
        )
    }
}

/// A Mandelbrot image to be rendered: its grid, its palette, and the
/// iteration budget, which equals the palette's length.
pub struct MandlebrotImage {
    pub file_name: String,
    pub image_dim: ImageDim,
    pub color_palette: ColorPalette,
    pub color_count: u32,
}

impl MandlebrotImage {
    pub open spec fn wf(&self) -> bool {
        &&& self.color_palette.wf()
        &&& self.color_count == self.color_palette.color_count
        &&& self.color_count >= 1
    }

    /// The number of pixels of the grid.
    pub open spec fn pixel_count(&self) -> int {
        self.image_dim.x.max * self.image_dim.y.max
    }

    pub fn new(
        file_name: String,
        image_dim: ImageDim,
        color_palette: ColorPalette,
        color_count: u32,
    ) -> (m: Self)
        requires
            color_palette.wf(),
            color_count == color_palette.color_count,
            color_count >= 1,
        ensures
            m.wf(),
            m.file_name == file_name,
            m.image_dim == image_dim,
            m.color_palette == color_palette,
            m.color_count == color_count,
    {
        MandlebrotImage { file_name, image_dim, color_palette, color_count }
    }

    /// The header that names the grid's width and height.
    pub fn header(&self) -> (r: Vec<u8>)
        ensures
            r@ == header_text(self.image_dim.x.max, self.image_dim.y.max),
    {
        let mut out: Vec<u8> = Vec::new();
        out.push(80u8);
        out.push(51u8);
        out.push(NEWLINE);
        push_decimal(&mut out, self.image_dim.x.max);
        out.push(SPACE);
        push_decimal(&mut out, self.image_dim.y.max);
        out.push(NEWLINE);
        out.push(50u8);
        out.push(53u8);
        out.push(53u8);
        out.push(NEWLINE);
        assert(out@ =~= header_text(self.image_dim.x.max, self.image_dim.y.max));
        out
    }

    /// Appends the line of one pixel: its three quantized levels.
    pub fn plot_pixel(color: Color, out: &mut Vec<u8>)
        requires
            color.wf(),
        ensures
            final(out)@ == old(out)@ + pixel_text(color),
    {
        push_decimal(out, color.r.quantize());
        out.push(SPACE);
        push_decimal(out, color.g.quantize());
        out.push(SPACE);
        push_decimal(out, color.b.quantize());
        out.push(SPACE);
        out.push(NEWLINE);
        assert(final(out)@ =~= old(out)@ + pixel_text(color));
    }

    /// A fresh escape counter whose budget is the palette's length.
    pub fn escape_counter(&self) -> (c: EscapeCounter)
        requires
            self.wf(),
        ensures
            c.iterations() == 0,
            c.budget() == self.color_count,
    {
        EscapeCounter::new(self.color_count)
    }

    /// The palette colour at the count that `escape` reached; the count is
    /// always a valid index.
    pub fn color_for(&self, escape: &EscapeCounter) -> (c: Color)
        requires
            self.wf(),
            escape.budget() == self.color_count,
        ensures
            escape.iterations() < self.color_palette.colors@.len(),
            c == self.color_palette.colors@[escape.iterations() as int],
            c.wf(),
    {
        let k: u32 = escape.count();
        self.color_palette.colors[k as usize]
    }

    /// The whole image file: the header, then one line per pixel in the
    /// order of `escapes` (row-major), each coloured by its escape count.
    pub fn image_bytes(&self, escapes: &Vec<EscapeCounter>) -> (r: Vec<u8>)
        requires
            self.wf(),
            escapes@.len() == self.pixel_count(),
            forall|k: int| 0 <= k < escapes@.len() ==> (#[trigger] escapes@[k]).budget() == self.color_count,
        ensures
            r@ == header_text(self.image_dim.x.max, self.image_dim.y.max) + pixels_text(
                self.color_palette.colors@,
                escapes@,
            ),
    {
        let mut out: Vec<u8> = self.header();
        let ghost head = out@;
        let mut k: usize = 0;
        while k < escapes.len()
            invariant
                self.wf(),
                k <= escapes@.len(),
                forall|j: int| 0 <= j < escapes@.len() ==> (#[trigger] escapes@[j]).budget() == self.color_count,
                out@ == head + pixels_text(self.color_palette.colors@, escapes@.subrange(0, k as int)),
            decreases escapes@.len() - k,
        {
            let c: Color = self.color_for(&escapes[k]);
            MandlebrotImage::plot_pixel(c, &mut out);
            proof {
                let s = escapes@.subrange(0, k + 1);
                assert(s.drop_last() =~= escapes@.subrange(0, k as int));
                assert(s.last() == escapes@[k as int]);
            }
            k = k + 1;
        }
        assert(escapes@.subrange(0, escapes@.len() as int) =~= escapes@);
        out
    }
}

} // verus!
