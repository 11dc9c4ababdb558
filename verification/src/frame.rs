//! Rasters, normalized frames, and the frame normalizer: optional resampling
//! to the canonical geometry followed by the alpha-collapse policy.

use vstd::arithmetic::div_mod::lemma_mod_multiples_basic;
use vstd::prelude::*;

use crate::geometry::Geometry;

verus! {

/// One decoded still image: row-major R,G,B,A quadruplets.
#[derive(Debug)]
pub struct RasterImage {
    pub width: u32,
    pub height: u32,
    pub pixels: Vec<u8>,
}

impl RasterImage {
    /// The buffer holds exactly four bytes per pixel.
    pub open spec fn wf(self) -> bool {
        self.pixels.len() == self.width * self.height * 4
    }
}

/// How a player must treat the canvas before showing the next frame. This
/// pipeline always clears to the background.
#[derive(Clone, Copy, PartialEq, Eq, Structural, Debug)]
pub enum Disposal {
    Background,
}

/// One frame ready for the container: canonical dimensions, a collapsed
/// R,G,B,A buffer of exactly `width * height * 4` bytes, and its timing.
#[derive(Debug)]
pub struct NormalizedFrame {
    pub width: u16,
    pub height: u16,
    pub pixels: Vec<u8>,
    pub delay_centis: u16,
    pub disposal: Disposal,
}

impl NormalizedFrame {
    /// The buffer holds exactly four bytes per pixel of the frame's geometry.
    pub open spec fn wf(self) -> bool {
        self.pixels.len() == self.width * self.height * 4
    }
}

/// What the alpha-collapse policy makes of one pixel. With preservation off
/// the pixel is forced fully opaque; with it on, a fully transparent pixel
/// loses its color as well, and every other pixel passes through unchanged.
pub open spec fn collapse_pixel(r: u8, g: u8, b: u8, a_src: u8, preserve_alpha: bool) -> Seq<u8> {
    let a: u8 = if preserve_alpha {
        a_src
    } else {
        255
    };
    if a == 0 {
        seq![0u8, 0u8, 0u8, 0u8]
    } else {
        seq![r, g, b, a]
    }
}

/// The alpha-collapse policy over a whole row-major R,G,B,A buffer.
pub open spec fn collapsed(pixels: Seq<u8>, preserve_alpha: bool) -> Seq<u8>
    decreases pixels.len(),
{
    if pixels.len() < 4 {
        Seq::empty()
    } else {
        collapse_pixel(pixels[0], pixels[1], pixels[2], pixels[3], preserve_alpha) + collapsed(
            pixels.skip(4),
            preserve_alpha,
        )
    }
}

/// The collapse of a whole buffer keeps its length.
pub proof fn lemma_collapsed_len(pixels: Seq<u8>, preserve_alpha: bool)
    requires
        pixels.len() % 4 == 0,
    ensures
        collapsed(pixels, preserve_alpha).len() == pixels.len(),
    decreases pixels.len(),
{
    if pixels.len() < 4 {
        assert(pixels.len() == 0);
    } else {
        assert(pixels.skip(4).len() % 4 == 0);
        lemma_collapsed_len(pixels.skip(4), preserve_alpha);
    }
}

/// Bytes `4*i .. 4*i + 4` of a collapsed buffer are the collapse of source
/// pixel `i`.
pub proof fn lemma_collapsed_pixel(pixels: Seq<u8>, preserve_alpha: bool, i: int)
    requires
        pixels.len() % 4 == 0,
        0 <= i,
        4 * i + 3 < pixels.len(),
    ensures
        collapsed(pixels, preserve_alpha).subrange(4 * i, 4 * i + 4) == collapse_pixel(
            pixels[4 * i],
            pixels[4 * i + 1],
            pixels[4 * i + 2],
            pixels[4 * i + 3],
            preserve_alpha,
        ),
    decreases i,
{
    lemma_collapsed_len(pixels, preserve_alpha);
    let pix = collapse_pixel(pixels[0], pixels[1], pixels[2], pixels[3], preserve_alpha);
    let rest = collapsed(pixels.skip(4), preserve_alpha);
    assert(collapsed(pixels, preserve_alpha) == pix + rest);
    if i == 0 {
        assert(collapsed(pixels, preserve_alpha).subrange(0, 4) =~= pix);
    } else {
        assert(pixels.skip(4).len() % 4 == 0);
        lemma_collapsed_len(pixels.skip(4), preserve_alpha);
        lemma_collapsed_pixel(pixels.skip(4), preserve_alpha, i - 1);
        assert(collapsed(pixels, preserve_alpha).subrange(4 * i, 4 * i + 4) =~= rest.subrange(
            4 * (i - 1),
            4 * (i - 1) + 4,
        ));
        assert(pixels.skip(4)[4 * (i - 1)] == pixels[4 * i]);
        assert(pixels.skip(4)[4 * (i - 1) + 1] == pixels[4 * i + 1]);
        assert(pixels.skip(4)[4 * (i - 1) + 2] == pixels[4 * i + 2]);
        assert(pixels.skip(4)[4 * (i - 1) + 3] == pixels[4 * i + 3]);
    }
}

/// Law: with alpha preservation off, every output alpha byte is 255,
/// whatever the source held.
pub proof fn lemma_collapse_opaque(pixels: Seq<u8>, i: int)
    requires
        pixels.len() % 4 == 0,
        0 <= i,
        4 * i + 3 < pixels.len(),
    ensures
        collapsed(pixels, false)[4 * i + 3] == 255,
{
    lemma_collapsed_len(pixels, false);
    lemma_collapsed_pixel(pixels, false, i);
    assert(collapsed(pixels, false)[4 * i + 3] == collapsed(pixels, false).subrange(
        4 * i,
        4 * i + 4,
    )[3]);
}

/// Law: with alpha preservation on, a fully transparent source pixel comes
/// out with its color zeroed as well.
pub proof fn lemma_collapse_transparent(pixels: Seq<u8>, i: int)
    requires
        pixels.len() % 4 == 0,
        0 <= i,
        4 * i + 3 < pixels.len(),
        pixels[4 * i + 3] == 0,
    ensures
        collapsed(pixels, true).subrange(4 * i, 4 * i + 4) == seq![0u8, 0u8, 0u8, 0u8],
{
    lemma_collapsed_pixel(pixels, true, i);
}

/// Law: with alpha preservation on, a pixel whose alpha is not zero — fully
/// opaque or strictly intermediate — passes through unchanged.
pub proof fn lemma_collapse_passthrough(pixels: Seq<u8>, i: int)
    requires
        pixels.len() % 4 == 0,
        0 <= i,
        4 * i + 3 < pixels.len(),
        pixels[4 * i + 3] != 0,
    ensures
        collapsed(pixels, true).subrange(4 * i, 4 * i + 4) == pixels.subrange(4 * i, 4 * i + 4),
{
    lemma_collapsed_pixel(pixels, true, i);
    assert(collapse_pixel(
        pixels[4 * i],
        pixels[4 * i + 1],
        pixels[4 * i + 2],
        pixels[4 * i + 3],
        true,
    ) =~= pixels.subrange(4 * i, 4 * i + 4));
}

/// Law: with alpha preservation on, a buffer with no fully transparent pixel
/// collapses to itself, byte for byte.
pub proof fn lemma_collapse_identity(pixels: Seq<u8>)
    requires
        pixels.len() % 4 == 0,
        forall|j: int| 0 <= j < pixels.len() && j % 4 == 3 ==> pixels[j] != 0,
    ensures
        collapsed(pixels, true) == pixels,
    decreases pixels.len(),
{
    if pixels.len() < 4 {
        assert(pixels.len() == 0);
        assert(collapsed(pixels, true) =~= pixels);
    } else {
        let s = pixels.skip(4);
        assert(s.len() % 4 == 0);
        assert forall|j: int| 0 <= j < s.len() && j % 4 == 3 implies s[j] != 0 by {
            assert(s[j] == pixels[j + 4]);
            assert((j + 4) % 4 == 3);
            assert(pixels[j + 4] != 0);
        }
        lemma_collapse_identity(s);
        assert(pixels[3] != 0);
        assert(collapse_pixel(pixels[0], pixels[1], pixels[2], pixels[3], true) =~= pixels.subrange(
            0,
            4,
        ));
        assert(collapsed(pixels, true) =~= pixels);
    }
}

/// Applies the alpha-collapse policy to a row-major R,G,B,A buffer.
pub fn alpha_collapse(pixels: &Vec<u8>, preserve_alpha: bool) -> (out: Vec<u8>)
    requires
        pixels.len() % 4 == 0,
    ensures
        out@ == collapsed(pixels@, preserve_alpha),
        out.len() == pixels.len(),
{
    let mut out: Vec<u8> = Vec::new();
    let mut i: usize = 0;
    proof {
        assert(pixels@.skip(0) =~= pixels@);
        assert(Seq::<u8>::empty() + collapsed(pixels@, preserve_alpha) =~= collapsed(
            pixels@,
            preserve_alpha,
        ));
    }
    while i < pixels.len()
        invariant
            i % 4 == 0,
            i <= pixels.len(),
            pixels.len() % 4 == 0,
            out@.len() == i,
            collapsed(pixels@, preserve_alpha) == out@ + collapsed(
                pixels@.skip(i as int),
                preserve_alpha,
            ),
        decreases pixels.len() - i,
    {
        let r = pixels[i];
        let g = pixels[i + 1];
        let b = pixels[i + 2];
        let a_src = pixels[i + 3];
        let alpha: u8 = if preserve_alpha {
            a_src
        } else {
            255
        };
        let ghost out0 = out@;
        let ghost s = pixels@.skip(i as int);
        proof {
            assert(s.len() >= 4);
            assert(s[0] == pixels@[i as int]);
            assert(s[1] == pixels@[i as int + 1]);
            assert(s[2] == pixels@[i as int + 2]);
            assert(s[3] == pixels@[i as int + 3]);
            assert(s.skip(4) =~= pixels@.skip(i as int + 4));
        }
        if alpha == 0 {
            out.push(0);
            out.push(0);
            out.push(0);
            out.push(0);
        } else {
            out.push(r);
            out.push(g);
            out.push(b);
            out.push(alpha);
        }
        proof {
            let pix = collapse_pixel(s[0], s[1], s[2], s[3], preserve_alpha);
            assert(out@ =~= out0 + pix);
            assert(collapsed(s, preserve_alpha) == pix + collapsed(s.skip(4), preserve_alpha));
            assert(out0 + (pix + collapsed(s.skip(4), preserve_alpha)) =~= (out0 + pix)
                + collapsed(s.skip(4), preserve_alpha));
        }
        i = i + 4;
    }
    proof {
        assert(pixels@.skip(pixels@.len() as int) =~= Seq::<u8>::empty());
        assert(out@ + Seq::<u8>::empty() =~= out@);
    }
    out
}

/// What `image`'s Lanczos resampler returns for a given source raster and
/// target geometry. The bytes depend on these arguments alone.
pub uninterp spec fn resample_of(
    pixels: Seq<u8>,
    src_width: int,
    src_height: int,
    dst_width: int,
    dst_height: int,
) -> Seq<u8>;

/// Relies on `image::RgbaImage::from_raw`, `image::imageops::resize` with the
/// three-lobe Lanczos filter, and `ImageBuffer::into_raw`: the resized buffer
/// has exactly the requested dimensions, four bytes per pixel, and its
/// contents are a function of the source bytes and the four dimensions alone.
#[verifier::external_body]
fn resample_rgba(pixels: Vec<u8>, src_width: u32, src_height: u32, dst_width: u16, dst_height: u16) -> (out: Vec<
    u8,
>)
    requires
        pixels.len() == src_width * src_height * 4,
    ensures
        out@ == resample_of(
            pixels@,
            src_width as int,
            src_height as int,
            dst_width as int,
            dst_height as int,
        ),
        out.len() == dst_width * dst_height * 4,
{
    let buffer = image::RgbaImage::from_raw(src_width, src_height, pixels).unwrap();
    let resized = image::imageops::resize(
        &buffer,
        u32::from(dst_width),
        u32::from(dst_height),
        image::imageops::FilterType::Lanczos3,
    );
    resized.into_raw()
}

/// The pixel bytes the normalizer owes for one raster and one target
/// geometry: the alpha collapse of the raster itself when its dimensions
/// already match, else of its Lanczos resample to the target.
pub open spec fn normalized_pixels(
    raster: RasterImage,
    geometry: Geometry,
    preserve_alpha: bool,
) -> Seq<u8> {
    if raster.width == geometry.width && raster.height == geometry.height {
        collapsed(raster.pixels@, preserve_alpha)
    } else {
        collapsed(
            resample_of(
                raster.pixels@,
                raster.width as int,
                raster.height as int,
                geometry.width as int,
                geometry.height as int,
            ),
            preserve_alpha,
        )
    }
}

/// Produces the frame that the container encoder will write for one raster:
/// the raster is stretched to the canonical geometry unless it already
/// matches it, and the alpha-collapse policy is applied to every pixel.
pub fn normalize(
    raster: RasterImage,
    geometry: Geometry,
    preserve_alpha: bool,
    delay_centis: u16,
) -> (frame: NormalizedFrame)
    requires
        raster.wf(),
    ensures
        frame.wf(),
        frame.width == geometry.width,
        frame.height == geometry.height,
        frame.delay_centis == delay_centis,
        frame.disposal == Disposal::Background,
        frame.pixels@ == normalized_pixels(raster, geometry, preserve_alpha),
{
    let matches_geometry = raster.width == geometry.width as u32 && raster.height
        == geometry.height as u32;
    let pixels = if matches_geometry {
        raster.pixels
    } else {
        resample_rgba(raster.pixels, raster.width, raster.height, geometry.width, geometry.height)
    };
    proof {
        if matches_geometry {
            lemma_mod_multiples_basic(raster.width * raster.height, 4);
        } else {
            lemma_mod_multiples_basic(geometry.width * geometry.height, 4);
        }
    }
    let out = alpha_collapse(&pixels, preserve_alpha);
    NormalizedFrame {
        width: geometry.width,
        height: geometry.height,
        pixels: out,
        delay_centis,
        disposal: Disposal::Background,
    }
}

} // verus!
