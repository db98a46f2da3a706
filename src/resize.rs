use vstd::prelude::*;
use crate::pixels::{ColorChannels, ImageBuffer};

verus! {

/// The size an `ow` by `oh` image gets when it must fit in `mw` by `mh`:
/// unchanged when it already fits, else scaled by the smaller of the two
/// ratios `mw / ow` and `mh / oh`, the scaled side rounded down.
pub open spec fn target_size(ow: int, oh: int, mw: int, mh: int) -> (int, int) {
    if ow <= mw && oh <= mh {
        (ow, oh)
    } else if oh == 0 || (ow > 0 && mw * oh <= mh * ow) {
        (mw, oh * mw / ow)
    } else {
        (ow * mh / oh, mh)
    }
}

/// One side is the bound exactly and the other is the exact proportional
/// length rounded down: off by less than one pixel.
pub open spec fn keeps_aspect(tw: int, th: int, ow: int, oh: int) -> bool {
    (0 <= tw * oh - th * ow < ow) || (0 <= th * ow - tw * oh < oh)
}

/// Computes the size an image gets under a bounding box.
pub fn calculate_target_size(original_width: u32, original_height: u32, max_width: u32, max_height: u32) -> (r: (u32, u32))
    ensures
        r.0 as int == target_size(
            original_width as int,
            original_height as int,
            max_width as int,
            max_height as int,
        ).0,
        r.1 as int == target_size(
            original_width as int,
            original_height as int,
            max_width as int,
            max_height as int,
        ).1,
{
    if original_width <= max_width && original_height <= max_height {
        return (original_width, original_height);
    }
    let ow = original_width as u64;
    let oh = original_height as u64;
    let mw = max_width as u64;
    let mh = max_height as u64;
    assert(mw * oh <= 0xffff_ffff_ffff_ffff) by (nonlinear_arith)
        requires mw <= 0xffff_ffff, oh <= 0xffff_ffff;
    assert(mh * ow <= 0xffff_ffff_ffff_ffff) by (nonlinear_arith)
        requires mh <= 0xffff_ffff, ow <= 0xffff_ffff;
    if oh == 0 || (ow > 0 && mw * oh <= mh * ow) {
        assert((oh as int * mw as int) / (ow as int) <= mh as int) by (nonlinear_arith)
            requires ow > 0, mw as int * oh as int <= mh as int * ow as int;
        (max_width, (oh * mw / ow) as u32)
    } else {
        assert((ow as int * mh as int) / (oh as int) <= mw as int) by (nonlinear_arith)
            requires oh > 0, ow == 0 || mw as int * oh as int > mh as int * ow as int;
        ((ow * mh / oh) as u32, max_height)
    }
}

/// A box-bounded size never exceeds the box, and an image that has to shrink
/// keeps its aspect ratio to within one pixel of rounding; one that already
/// fits keeps its size.
pub proof fn lemma_fit_keeps_aspect(ow: int, oh: int, mw: int, mh: int)
    requires
        ow >= 0,
        oh >= 0,
        mw >= 0,
        mh >= 0,
    ensures
        ow <= mw && oh <= mh ==> target_size(ow, oh, mw, mh) == (ow, oh),
        !(ow <= mw && oh <= mh) ==> {
            let (tw, th) = target_size(ow, oh, mw, mh);
            0 <= tw <= mw && 0 <= th <= mh && keeps_aspect(tw, th, ow, oh)
        },
{
    if !(ow <= mw && oh <= mh) {
        if oh == 0 || (ow > 0 && mw * oh <= mh * ow) {
            assert(ow > 0);
            let th = oh * mw / ow;
            assert(0 <= th <= mh) by (nonlinear_arith)
                requires ow > 0, oh >= 0, mw >= 0, mh >= 0, mw * oh <= mh * ow || oh == 0, th == oh * mw / ow;
            assert(0 <= mw * oh - th * ow < ow) by (nonlinear_arith)
                requires ow > 0, oh >= 0, mw >= 0, th == oh * mw / ow;
        } else {
            let tw = ow * mh / oh;
            assert(0 <= tw <= mw) by (nonlinear_arith)
                requires oh > 0, ow >= 0, mh >= 0, mw >= 0, ow == 0 || mw * oh > mh * ow, tw == ow * mh / oh;
            assert(0 <= mh * ow - tw * oh < oh) by (nonlinear_arith)
                requires oh > 0, ow >= 0, mh >= 0, tw == ow * mh / oh;
        }
    }
}

/// What `image::imageops::resize` with the Lanczos3 filter makes of the RGBA
/// samples of a `w` by `h` image at size `nw` by `nh`.
pub uninterp spec fn lanczos_of(rgba: Seq<u8>, w: u32, h: u32, nw: u32, nh: u32) -> Seq<u8>;

/// Relies on `image::imageops::resize` with the Lanczos3 filter: the result
/// has the requested size, four samples per pixel.
#[verifier::external_body]
fn lanczos_resize_rgba(data: &Vec<u8>, w: u32, h: u32, nw: u32, nh: u32) -> (r: Vec<u8>)
    requires
        data@.len() == w as int * h as int * 4,
        w > 0,
        h > 0,
    ensures
        r@ == lanczos_of(data@, w, h, nw, nh),
        r@.len() == nw as int * nh as int * 4,
{
    let src = image::RgbaImage::from_raw(w, h, data.clone()).unwrap();
    image::imageops::resize(&src, nw, nh, image::imageops::FilterType::Lanczos3).into_raw()
}

/// The samples of an RGBA image after fitting it in a box.
pub open spec fn fitted_samples(d: Seq<u8>, w: u32, h: u32, mw: u32, mh: u32) -> Seq<u8> {
    let (tw, th) = target_size(w as int, h as int, mw as int, mh as int);
    if tw == w && th == h {
        d
    } else if w == 0 || h == 0 {
        Seq::empty()
    } else {
        lanczos_of(d, w, h, tw as u32, th as u32)
    }
}

/// Shrinks an RGBA image to fit a bounding box, or hands it back unchanged when
/// it already fits.
pub fn fit_within(img: ImageBuffer, max_width: u32, max_height: u32) -> (r: ImageBuffer)
    requires
        img.wf(),
        img.channels == ColorChannels::Rgba,
    ensures
        r.wf(),
        r.channels == ColorChannels::Rgba,
        r.width as int == target_size(img.width as int, img.height as int, max_width as int, max_height as int).0,
        r.height as int == target_size(img.width as int, img.height as int, max_width as int, max_height as int).1,
        img.width <= max_width && img.height <= max_height ==> r == img,
        r.data@ == fitted_samples(img.data@, img.width, img.height, max_width, max_height),
{
    let (tw, th) = calculate_target_size(img.width, img.height, max_width, max_height);
    if tw == img.width && th == img.height {
        return img;
    }
    if img.width == 0 || img.height == 0 {
        // an empty image has no samples to filter
        return ImageBuffer { data: Vec::new(), width: tw, height: th, channels: ColorChannels::Rgba };
    }
    let data = lanczos_resize_rgba(&img.data, img.width, img.height, tw, th);
    ImageBuffer { data, width: tw, height: th, channels: ColorChannels::Rgba }
}

} // verus!
