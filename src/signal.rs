//! The brightness transcoder: pixels to a normalized signal.
use vstd::prelude::*;

verus! {

/// Sum of the R, G and B channels of a white pixel; an integer sample `n`
/// denotes the amplitude `n / SAMPLE_SCALE`.
pub const SAMPLE_SCALE: i32 = 765;

/// How brightness is mapped to amplitude.
#[derive(Clone, Copy, Debug, PartialEq, Eq, Structural)]
pub enum Polarity {
    /// Average brightness as is: amplitudes in `[0, 1]`.
    Unipolar,
    /// Average brightness centred on silence: amplitudes in `[-1, 1]`.
    Bipolar,
}

/// R + G + B of an RGBA pixel; alpha is ignored.
pub open spec fn brightness_sum(p: [u8; 4]) -> int {
    p@[0] as int + p@[1] as int + p@[2] as int
}

/// The sample that a pixel becomes: `avg` in unipolar mode, `2 * avg - 1` in
/// bipolar mode, with `avg = brightness_sum / SAMPLE_SCALE`.
pub open spec fn level(p: [u8; 4], mode: Polarity) -> int {
    match mode {
        Polarity::Unipolar => brightness_sum(p),
        Polarity::Bipolar => 2 * brightness_sum(p) - SAMPLE_SCALE,
    }
}

/// The signal of a row-major pixel sequence: one sample per pixel, in order.
pub open spec fn signal_of(pixels: Seq<[u8; 4]>, mode: Polarity) -> Seq<i32> {
    Seq::new(pixels.len(), |i: int| level(pixels[i], mode) as i32)
}

pub open spec fn is_black(p: [u8; 4]) -> bool {
    p@[0] == 0 && p@[1] == 0 && p@[2] == 0
}

pub open spec fn is_white(p: [u8; 4]) -> bool {
    p@[0] == 255 && p@[1] == 255 && p@[2] == 255
}

/// A row-major grid of RGBA pixels.
pub struct PixelGrid {
    width: u32,
    height: u32,
    pixels: Vec<[u8; 4]>,
}

impl PixelGrid {
    pub closed spec fn spec_width(&self) -> nat {
        self.width as nat
    }

    pub closed spec fn spec_height(&self) -> nat {
        self.height as nat
    }

    pub closed spec fn spec_pixels(&self) -> Seq<[u8; 4]> {
        self.pixels@
    }

    pub open spec fn wf(&self) -> bool {
        self.spec_pixels().len() == self.spec_width() * self.spec_height()
    }

    /// A grid of `width` by `height` pixels, or `None` where `pixels` does not
    /// hold exactly `width * height` of them.
    pub fn new(width: u32, height: u32, pixels: Vec<[u8; 4]>) -> (r: Option<PixelGrid>)
        ensures
            r is Some <==> pixels@.len() == width as int * height as int,
            r matches Some(g) ==> g.wf() && g.spec_width() == width && g.spec_height() == height
                && g.spec_pixels() == pixels@,
    {
        assert(width as u64 * height as u64 <= u32::MAX as u64 * u32::MAX as u64) by (nonlinear_arith);
        let area: u64 = width as u64 * height as u64;
        if pixels.len() as u128 == area as u128 {
            Some(PixelGrid { width, height, pixels })
        } else {
            None
        }
    }

    pub fn width(&self) -> (r: u32)
        ensures
            r == self.spec_width(),
    {
        self.width
    }

    pub fn height(&self) -> (r: u32)
        ensures
            r == self.spec_height(),
    {
        self.height
    }

    pub fn pixels(&self) -> (r: &[[u8; 4]])
        ensures
            r@ == self.spec_pixels(),
    {
        self.pixels.as_slice()
    }
}

/// The sample of one pixel.
pub fn pixel_level(p: [u8; 4], mode: Polarity) -> (r: i32)
    ensures
        r == level(p, mode),
{
    let sum: i32 = p[0] as i32 + p[1] as i32 + p[2] as i32;
    match mode {
        Polarity::Unipolar => sum,
        Polarity::Bipolar => 2 * sum - SAMPLE_SCALE,
    }
}

/// Converts each pixel of a row-major sequence to its sample, keeping order.
pub fn transcode_pixels(pixels: &[[u8; 4]], mode: Polarity) -> (r: Vec<i32>)
    ensures
        r@ == signal_of(pixels@, mode),
{
    let mut out: Vec<i32> = Vec::with_capacity(pixels.len());
    let mut i: usize = 0;
    while i < pixels.len()
        invariant
            i <= pixels@.len(),
            out@ == signal_of(pixels@, mode).take(i as int),
        decreases pixels@.len() - i,
    {
        let s = pixel_level(pixels[i], mode);
        out.push(s);
        i += 1;
        assert(out@ =~= signal_of(pixels@, mode).take(i as int));
    }
    assert(out@ =~= signal_of(pixels@, mode));
    out
}

/// The brightness signal of a grid: `width * height` samples in row-major
/// order.
pub fn transcode(grid: &PixelGrid, mode: Polarity) -> (r: Vec<i32>)
    requires
        grid.wf(),
    ensures
        r@ == signal_of(grid.spec_pixels(), mode),
        r@.len() == grid.spec_width() * grid.spec_height(),
{
    transcode_pixels(grid.pixels.as_slice(), mode)
}

/// Every unipolar sample lies in `[0, 1]` and every bipolar sample in
/// `[-1, 1]`, that is, in `[0, SAMPLE_SCALE]` and `[-SAMPLE_SCALE, SAMPLE_SCALE]`.
pub proof fn lemma_signal_in_range(pixels: Seq<[u8; 4]>)
    ensures
        forall|i: int|
            0 <= i < pixels.len() ==> 0 <= #[trigger] signal_of(pixels, Polarity::Unipolar)[i]
                <= SAMPLE_SCALE,
        forall|i: int|
            0 <= i < pixels.len() ==> -SAMPLE_SCALE <= #[trigger] signal_of(
                pixels,
                Polarity::Bipolar,
            )[i] <= SAMPLE_SCALE,
{
}

/// A pure-black image gives silence in unipolar mode (all 0) and the floor
/// of the range in bipolar mode (all -1).
pub proof fn lemma_black_image(pixels: Seq<[u8; 4]>)
    requires
        forall|i: int| 0 <= i < pixels.len() ==> is_black(#[trigger] pixels[i]),
    ensures
        forall|i: int|
            0 <= i < pixels.len() ==> #[trigger] signal_of(pixels, Polarity::Unipolar)[i] == 0,
        forall|i: int|
            0 <= i < pixels.len() ==> #[trigger] signal_of(pixels, Polarity::Bipolar)[i]
                == -SAMPLE_SCALE,
{
    assert forall|i: int| 0 <= i < pixels.len() implies #[trigger] signal_of(
        pixels,
        Polarity::Unipolar,
    )[i] == 0 by {
        assert(is_black(pixels[i]));
    }
    assert forall|i: int| 0 <= i < pixels.len() implies #[trigger] signal_of(
        pixels,
        Polarity::Bipolar,
    )[i] == -SAMPLE_SCALE by {
        assert(is_black(pixels[i]));
    }
}

/// A pure-white image gives the top of the range (all 1) in both modes.
pub proof fn lemma_white_image(pixels: Seq<[u8; 4]>)
    requires
        forall|i: int| 0 <= i < pixels.len() ==> is_white(#[trigger] pixels[i]),
    ensures
        forall|i: int|
            0 <= i < pixels.len() ==> #[trigger] signal_of(pixels, Polarity::Unipolar)[i]
                == SAMPLE_SCALE,
        forall|i: int|
            0 <= i < pixels.len() ==> #[trigger] signal_of(pixels, Polarity::Bipolar)[i]
                == SAMPLE_SCALE,
{
    assert forall|i: int| 0 <= i < pixels.len() implies #[trigger] signal_of(
        pixels,
        Polarity::Unipolar,
    )[i] == SAMPLE_SCALE by {
        assert(is_white(pixels[i]));
    }
    assert forall|i: int| 0 <= i < pixels.len() implies #[trigger] signal_of(
        pixels,
        Polarity::Bipolar,
    )[i] == SAMPLE_SCALE by {
        assert(is_white(pixels[i]));
    }
}

} // verus!
