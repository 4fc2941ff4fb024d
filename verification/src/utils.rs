//! Conversions from the pixel layouts that screen grabbers deliver to RGBA.

use vstd::prelude::*;

verus! {

/// Byte `c` of pixel `p` in a buffer whose pixels are `stride` bytes wide.
pub open spec fn channel(s: Seq<u8>, stride: int, p: int, c: int) -> u8 {
    s[stride * p + c]
}

/// Number of whole pixels of `stride` bytes in a buffer of `len` bytes.
pub open spec fn whole_pixels(len: int, stride: int) -> int {
    len / stride
}

/// Pixel `p` of `out` is the RGBA pixel whose red, green and blue bytes are
/// the bytes at offsets `r`, `g`, `b` of pixel `p` of `src`, and whose alpha
/// is the byte at offset `a` when there is one, or 255 (opaque) when not.
pub open spec fn pixel_remapped(src: Seq<u8>, out: Seq<u8>, stride: int, r: int, g: int, b: int, a: Option<int>, p: int) -> bool {
    &&& channel(out, 4, p, 0) == channel(src, stride, p, r)
    &&& channel(out, 4, p, 1) == channel(src, stride, p, g)
    &&& channel(out, 4, p, 2) == channel(src, stride, p, b)
    &&& channel(out, 4, p, 3) == match a {
        Some(ai) => channel(src, stride, p, ai),
        None => 255u8,
    }
}

/// `out` holds, in order, the RGBA form of every whole pixel of `src`; a
/// trailing partial pixel is dropped.
pub open spec fn remapped(src: Seq<u8>, out: Seq<u8>, stride: int, r: int, g: int, b: int, a: Option<int>) -> bool {
    &&& out.len() == 4 * whole_pixels(src.len() as int, stride)
    &&& forall|p: int| 0 <= p < whole_pixels(src.len() as int, stride)
        ==> #[trigger] pixel_remapped(src, out, stride, r, g, b, a, p)
}

fn remap_pixels(src: &Vec<u8>, stride: usize, r: usize, g: usize, b: usize, a: Option<usize>) -> (out: Vec<u8>)
    requires
        3 <= stride <= 4,
        r < stride,
        g < stride,
        b < stride,
        a matches Some(ai) ==> ai < stride,
        stride == 3 ==> 4 * (src@.len() as int / 3) <= usize::MAX,
    ensures
        remapped(src@, out@, stride as int, r as int, g as int, b as int, match a {
            Some(ai) => Some(ai as int),
            None => None,
        }),
{
    let len = src.len();
    let n = len / stride;
    assert(4 * n <= usize::MAX) by (nonlinear_arith)
        requires n == len as int / stride as int, 3 <= stride <= 4, len <= usize::MAX,
            stride == 3 ==> 4 * (len as int / 3) <= usize::MAX;
    let mut out: Vec<u8> = Vec::with_capacity(4 * n);
    let ghost ga: Option<int> = match a {
        Some(ai) => Some(ai as int),
        None => None,
    };
    let mut i: usize = 0;
    while i < n
        invariant
            3 <= stride <= 4,
            r < stride,
            g < stride,
            b < stride,
            a matches Some(ai) ==> ai < stride,
            ga == (match a {
                Some(ai) => Some(ai as int),
                None => None::<int>,
            }),
            n == src@.len() as int / stride as int,
            4 * n <= usize::MAX,
            i <= n,
            out@.len() == 4 * i,
            forall|p: int| 0 <= p < i ==> #[trigger] pixel_remapped(src@, out@, stride as int, r as int, g as int, b as int, ga, p),
        decreases n - i,
    {
        assert(stride * i + stride <= src@.len()) by (nonlinear_arith)
            requires i < n, n == src@.len() as int / stride as int, 3 <= stride;
        let base = stride * i;
        let ghost before = out@;
        out.push(src[base + r]);
        out.push(src[base + g]);
        out.push(src[base + b]);
        match a {
            Some(ai) => out.push(src[base + ai]),
            None => out.push(255u8),
        }
        assert forall|p: int| 0 <= p < i + 1 implies #[trigger] pixel_remapped(src@, out@, stride as int, r as int, g as int, b as int, ga, p) by {
            if p < i {
                assert(pixel_remapped(src@, before, stride as int, r as int, g as int, b as int, ga, p));
                assert(channel(out@, 4, p, 0) == channel(before, 4, p, 0));
                assert(channel(out@, 4, p, 1) == channel(before, 4, p, 1));
                assert(channel(out@, 4, p, 2) == channel(before, 4, p, 2));
                assert(channel(out@, 4, p, 3) == channel(before, 4, p, 3));
            } else {
                assert(p == i);
            }
        }
        i = i + 1;
    }
    assert(whole_pixels(src@.len() as int, stride as int) == n);
    out
}

/// Converts packed RGB pixels to RGBA, with every pixel opaque; a trailing
/// partial pixel is dropped.
pub fn rgb_to_rgba(rgb_buffer: Vec<u8>) -> (rgba_buffer: Vec<u8>)
    requires
        4 * (rgb_buffer@.len() / 3) <= usize::MAX,
    ensures
        remapped(rgb_buffer@, rgba_buffer@, 3, 0, 1, 2, None),
{
    remap_pixels(&rgb_buffer, 3, 0, 1, 2, None)
}

/// Converts BGR0 pixels to RGBA, with every pixel opaque.
pub fn bgr0_to_rgba(bgr0_buffer: Vec<u8>) -> (rgba_buffer: Vec<u8>)
    ensures
        remapped(bgr0_buffer@, rgba_buffer@, 4, 2, 1, 0, None),
{
    remap_pixels(&bgr0_buffer, 4, 2, 1, 0, None)
}

/// Converts RGBx pixels to RGBA, with every pixel opaque.
pub fn rgbx_to_rgba(rgbx_buffer: Vec<u8>) -> (rgba_buffer: Vec<u8>)
    ensures
        remapped(rgbx_buffer@, rgba_buffer@, 4, 0, 1, 2, None),
{
    remap_pixels(&rgbx_buffer, 4, 0, 1, 2, None)
}

/// Converts XBGR pixels to RGBA, with every pixel opaque.
pub fn xbgr_to_rgba(xbgr_buffer: Vec<u8>) -> (rgba_buffer: Vec<u8>)
    ensures
        remapped(xbgr_buffer@, rgba_buffer@, 4, 3, 2, 1, None),
{
    remap_pixels(&xbgr_buffer, 4, 3, 2, 1, None)
}

/// Converts BGRx pixels to RGBA, with every pixel opaque.
pub fn bgrx_to_rgba(bgrx_buffer: Vec<u8>) -> (rgba_buffer: Vec<u8>)
    ensures
        remapped(bgrx_buffer@, rgba_buffer@, 4, 2, 1, 0, None),
{
    remap_pixels(&bgrx_buffer, 4, 2, 1, 0, None)
}

/// Converts BGRA pixels to RGBA, keeping each pixel's alpha.
pub fn bgra_to_rgba(bgra_buffer: Vec<u8>) -> (rgba_buffer: Vec<u8>)
    ensures
        remapped(bgra_buffer@, rgba_buffer@, 4, 2, 1, 0, Some(3)),
{
    remap_pixels(&bgra_buffer, 4, 2, 1, 0, Some(3))
}


/// What a remapped buffer holds, byte by byte: for each whole source pixel
/// `p`, the output's four bytes from `4 * p` are the source bytes at offsets
/// `r`, `g`, `b` of that pixel and then its alpha byte, or 255 when the
/// source has no alpha.
pub proof fn lemma_remapped_bytes(src: Seq<u8>, out: Seq<u8>, stride: int, r: int, g: int, b: int, a: Option<int>, p: int)
    requires
        remapped(src, out, stride, r, g, b, a),
        0 < stride,
        0 <= p < (src.len() as int) / stride,
    ensures
        out.len() == 4 * ((src.len() as int) / stride),
        out[4 * p] == src[stride * p + r],
        out[4 * p + 1] == src[stride * p + g],
        out[4 * p + 2] == src[stride * p + b],
        out[4 * p + 3] == match a {
            Some(ai) => src[stride * p + ai],
            None => 255u8,
        },
{
    assert(pixel_remapped(src, out, stride, r, g, b, a, p));
}

} // verus!
