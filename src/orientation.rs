use vstd::prelude::*;
use vstd::arithmetic::div_mod::{lemma_fundamental_div_mod, lemma_mod_bound};
use crate::pixels::{ImageBuffer, sample_index, lemma_sample_index};

verus! {

/// Codes 5 to 8 turn the image a quarter, so width and height trade places.
pub open spec fn swaps_axes(code: u16) -> bool {
    5 <= code <= 8
}

pub open spec fn oriented_width(code: u16, w: int, h: int) -> int {
    if swaps_axes(code) { h } else { w }
}

pub open spec fn oriented_height(code: u16, w: int, h: int) -> int {
    if swaps_axes(code) { w } else { h }
}

/// Column of the source pixel that lands at `(x, y)` of the corrected image
/// of a `w` by `h` source. Unknown codes keep the image as it is.
pub open spec fn source_x(code: u16, w: int, h: int, x: int, y: int) -> int {
    if code == 2 || code == 3 {
        w - 1 - x
    } else if code == 5 || code == 8 {
        w - 1 - y
    } else if code == 6 || code == 7 {
        y
    } else {
        x
    }
}

/// Row of the source pixel that lands at `(x, y)` of the corrected image.
pub open spec fn source_y(code: u16, w: int, h: int, x: int, y: int) -> int {
    if code == 3 || code == 4 {
        h - 1 - y
    } else if code == 5 || code == 6 {
        h - 1 - x
    } else if code == 7 || code == 8 {
        x
    } else {
        y
    }
}

/// The samples of a `w` by `h` image with `c` samples per pixel after the
/// geometric transform that orientation `code` calls for: 2 mirrors left to
/// right, 3 turns half round, 4 mirrors top to bottom, 6 turns a quarter
/// clockwise, 8 a quarter counter-clockwise, 5 and 7 mirror after turning.
pub open spec fn oriented(b: Seq<u8>, w: int, h: int, c: int, code: u16) -> Seq<u8> {
    let ow = oriented_width(code, w, h);
    let oh = oriented_height(code, w, h);
    Seq::new(
        (ow * oh * c) as nat,
        |i: int|
            {
                let p = i / c;
                let x = p % ow;
                let y = p / ow;
                b[sample_index(w, c, source_x(code, w, h, x, y), source_y(code, w, h, x, y), i % c)]
            },
    )
}

fn source_coords(code: u16, w: u32, h: u32, x: u32, y: u32) -> (r: (u32, u32))
    requires
        x < oriented_width(code, w as int, h as int),
        y < oriented_height(code, w as int, h as int),
    ensures
        r.0 == source_x(code, w as int, h as int, x as int, y as int),
        r.1 == source_y(code, w as int, h as int, x as int, y as int),
        r.0 < w,
        r.1 < h,
{
    let sx = if code == 2 || code == 3 {
        w - 1 - x
    } else if code == 5 || code == 8 {
        w - 1 - y
    } else if code == 6 || code == 7 {
        y
    } else {
        x
    };
    let sy = if code == 3 || code == 4 {
        h - 1 - y
    } else if code == 5 || code == 6 {
        h - 1 - x
    } else if code == 7 || code == 8 {
        x
    } else {
        y
    };
    (sx, sy)
}

/// Applies the transform of an EXIF orientation code to a decoded image.
pub fn apply_exif_orientation(img: ImageBuffer, orientation: u16) -> (r: ImageBuffer)
    requires
        img.wf(),
    ensures
        r.wf(),
        r.channels == img.channels,
        r.width == oriented_width(orientation, img.width as int, img.height as int),
        r.height == oriented_height(orientation, img.width as int, img.height as int),
        r.data@ == oriented(
            img.data@,
            img.width as int,
            img.height as int,
            img.channels.spec_count() as int,
            orientation,
        ),
{
    let w = img.width;
    let h = img.height;
    let c = img.channels.count();
    let ghost gw = w as int;
    let ghost gh = h as int;
    let ghost gc = c as int;
    let (ow, oh) = if 5 <= orientation && orientation <= 8 {
        (h, w)
    } else {
        (w, h)
    };
    let ghost spec_out = oriented(img.data@, gw, gh, gc, orientation);
    proof {
        if 5 <= orientation <= 8 {
            assert(gh * gw * gc == gw * gh * gc) by (nonlinear_arith);
        }
    }
    let n = img.data.len();
    assert(gw * gh <= gw * gh * gc) by (nonlinear_arith)
        requires gc >= 1, gw >= 0, gh >= 0;
    let mut out: Vec<u8> = Vec::new();
    let mut y: u32 = 0;
    while y < oh
        invariant
            img.wf(),
            c == img.channels.spec_count(),
            n == img.data@.len(),
            gw * gh <= gw * gh * gc,
            gc == c,
            gw == w,
            gh == h,
            w == img.width,
            h == img.height,
            ow == oriented_width(orientation, gw, gh),
            oh == oriented_height(orientation, gw, gh),
            ow as int * oh as int * gc == gw * gh * gc,
            spec_out == oriented(img.data@, gw, gh, gc, orientation),
            y <= oh,
            out@.len() == (y as int * ow as int) * gc,
            forall|j: int| 0 <= j < out@.len() ==> out@[j] == spec_out[j],
        decreases oh - y,
    {
        let mut x: u32 = 0;
        assert((y as int * ow as int) * gc == (y as int * ow as int + x as int) * gc);
        while x < ow
            invariant
                img.wf(),
                c == img.channels.spec_count(),
                n == img.data@.len(),
                gw * gh <= gw * gh * gc,
            n == img.data@.len(),
            gw * gh <= gw * gh * gc,
                gc == c,
                gw == w,
                gh == h,
                w == img.width,
                h == img.height,
                ow == oriented_width(orientation, gw, gh),
                oh == oriented_height(orientation, gw, gh),
                ow as int * oh as int * gc == gw * gh * gc,
                spec_out == oriented(img.data@, gw, gh, gc, orientation),
                y < oh,
                x <= ow,
                out@.len() == (y as int * ow as int + x as int) * gc,
                forall|j: int| 0 <= j < out@.len() ==> out@[j] == spec_out[j],
            decreases ow - x,
        {
            let (sx, sy) = source_coords(orientation, w, h, x, y);
            proof {
                lemma_sample_index(gw, gh, gc, sx as int, sy as int, 0);
            }
            proof {
                assert(sy as int * gw <= sy as int * gw + sx as int);
                assert(sy as int * gw + sx as int <= gw * gh);
            }
            let base: usize = (sy as usize * w as usize + sx as usize) * c;
            let mut k: usize = 0;
            while k < c
                invariant
                    img.wf(),
                    c == img.channels.spec_count(),
                    n == img.data@.len(),
                n == img.data@.len(),
                gw * gh <= gw * gh * gc,
            n == img.data@.len(),
            gw * gh <= gw * gh * gc,
                    gc == c,
                    gw == w,
                    gh == h,
                    w == img.width,
                    h == img.height,
                    ow == oriented_width(orientation, gw, gh),
                    oh == oriented_height(orientation, gw, gh),
                    ow as int * oh as int * gc == gw * gh * gc,
                    spec_out == oriented(img.data@, gw, gh, gc, orientation),
                    y < oh,
                    x < ow,
                    sx < w,
                    sy < h,
                    sx == source_x(orientation, gw, gh, x as int, y as int),
                    sy == source_y(orientation, gw, gh, x as int, y as int),
                    base == (sy as int * gw + sx as int) * gc,
                    base + gc <= gw * gh * gc,
                    gw * gh * gc == img.data@.len(),
                    k <= c,
                    out@.len() == (y as int * ow as int + x as int) * gc + k,
                    forall|j: int| 0 <= j < out@.len() ==> out@[j] == spec_out[j],
                decreases c - k,
            {
                proof {
                    lemma_sample_index(ow as int, oh as int, gc, x as int, y as int, k as int);
                }
                out.push(img.data[base + k]);
                k = k + 1;
            }
            x = x + 1;
            assert((y as int * ow as int + (x - 1) as int) * gc + gc == (y as int * ow as int
                + x as int) * gc) by (nonlinear_arith);
        }
        assert((y as int * ow as int + ow as int) * gc == ((y + 1) as int * ow as int) * gc)
            by (nonlinear_arith);
        y = y + 1;
    }
    assert(out@ =~= spec_out);
    ImageBuffer { data: out, width: ow, height: oh, channels: img.channels }
}

/// A sample index of a `w` by `h` buffer decodes into a pixel inside the grid
/// and a channel, and encodes back to itself.
proof fn lemma_decode(i: int, w: int, h: int, c: int)
    requires
        0 <= i < w * h * c,
        w >= 0,
        h >= 0,
        c > 0,
    ensures
        0 <= (i / c) % w < w,
        0 <= (i / c) / w < h,
        0 <= i % c < c,
        i == sample_index(w, c, (i / c) % w, (i / c) / w, i % c),
{
    assert(w > 0 && h > 0) by (nonlinear_arith)
        requires 0 <= i < w * h * c, w >= 0, h >= 0, c > 0;
    let p = i / c;
    let k = i % c;
    lemma_fundamental_div_mod(i, c);
    lemma_mod_bound(i, c);
    lemma_fundamental_div_mod(p, w);
    lemma_mod_bound(p, w);
    let x = p % w;
    let y = p / w;
    assert(0 <= p < w * h) by (nonlinear_arith)
        requires i == c * p + k, 0 <= k < c, 0 <= i < w * h * c, c > 0;
    assert(0 <= y < h) by (nonlinear_arith)
        requires p == w * y + x, 0 <= x < w, 0 <= p < w * h, w > 0;
    assert(i == (y * w + x) * c + k) by (nonlinear_arith)
        requires i == c * p + k, p == w * y + x;
}

/// Orientation code 1 leaves every sample where it was.
pub proof fn lemma_orientation_identity(b: Seq<u8>, w: int, h: int, c: int)
    requires
        w >= 0,
        h >= 0,
        c > 0,
        b.len() == w * h * c,
    ensures
        oriented(b, w, h, c, 1) == b,
{
    let r = oriented(b, w, h, c, 1);
    assert forall|i: int| 0 <= i < b.len() implies r[i] == b[i] by {
        lemma_decode(i, w, h, c);
    }
    assert(r =~= b);
}

/// Turning half round twice gives the image back.
pub proof fn lemma_rotate_half_self_inverse(b: Seq<u8>, w: int, h: int, c: int)
    requires
        w >= 0,
        h >= 0,
        c > 0,
        b.len() == w * h * c,
    ensures
        oriented(oriented(b, w, h, c, 3), w, h, c, 3) == b,
{
    let r = oriented(b, w, h, c, 3);
    let t = oriented(r, w, h, c, 3);
    assert forall|i: int| 0 <= i < b.len() implies t[i] == b[i] by {
        lemma_decode(i, w, h, c);
        let x = (i / c) % w;
        let y = (i / c) / w;
        let k = i % c;
        lemma_sample_index(w, h, c, w - 1 - x, h - 1 - y, k);
    }
    assert(t =~= b);
}

/// Mirroring top to bottom twice gives the image back.
pub proof fn lemma_flip_vertical_self_inverse(b: Seq<u8>, w: int, h: int, c: int)
    requires
        w >= 0,
        h >= 0,
        c > 0,
        b.len() == w * h * c,
    ensures
        oriented(oriented(b, w, h, c, 4), w, h, c, 4) == b,
{
    let r = oriented(b, w, h, c, 4);
    let t = oriented(r, w, h, c, 4);
    assert forall|i: int| 0 <= i < b.len() implies t[i] == b[i] by {
        lemma_decode(i, w, h, c);
        let x = (i / c) % w;
        let y = (i / c) / w;
        let k = i % c;
        lemma_sample_index(w, h, c, x, h - 1 - y, k);
    }
    assert(t =~= b);
}

/// A quarter turn clockwise (code 6) and a quarter turn counter-clockwise
/// (code 8) undo each other, in either order.
pub proof fn lemma_quarter_turns_inverse(b: Seq<u8>, w: int, h: int, c: int)
    requires
        w >= 0,
        h >= 0,
        c > 0,
        b.len() == w * h * c,
    ensures
        oriented(oriented(b, w, h, c, 6), h, w, c, 8) == b,
        oriented(oriented(b, w, h, c, 8), h, w, c, 6) == b,
{
    assert(h * w * c == w * h * c) by (nonlinear_arith);
    let r6 = oriented(b, w, h, c, 6);
    let t6 = oriented(r6, h, w, c, 8);
    assert forall|i: int| 0 <= i < b.len() implies t6[i] == b[i] by {
        lemma_decode(i, w, h, c);
        let x = (i / c) % w;
        let y = (i / c) / w;
        let k = i % c;
        lemma_sample_index(h, w, c, h - 1 - y, x, k);
    }
    assert(t6 =~= b);
    let r8 = oriented(b, w, h, c, 8);
    let t8 = oriented(r8, h, w, c, 6);
    assert forall|i: int| 0 <= i < b.len() implies t8[i] == b[i] by {
        lemma_decode(i, w, h, c);
        let x = (i / c) % w;
        let y = (i / c) / w;
        let k = i % c;
        lemma_sample_index(h, w, c, y, w - 1 - x, k);
    }
    assert(t8 =~= b);
}

} // verus!
