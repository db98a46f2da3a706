use vstd::prelude::*;
use crate::error::CompressError;
use crate::pixels::{ColorChannels, ImageBuffer};
use crate::sniff::png_signature;

verus! {

#[verifier::external_type_specification]
#[verifier::external_body]
pub struct ExPngEncodingError(png::EncodingError);

/// Quality floor of the first quantization attempt (capped at the target).
pub const INITIAL_QUALITY_FLOOR: u8 = 10;

/// Quality floor of the single retry after a quality-too-low failure.
pub const RELAXED_QUALITY_FLOOR: u8 = 0;

/// What imagequant makes of RGBA samples of a `w` by `h` image with a quality
/// range and full dithering: the palette and one index per pixel, or `None`
/// when it fails.
pub uninterp spec fn quantized_of(rgba: Seq<u8>, w: usize, h: usize, floor: u8, target: u8) -> Option<
    (Seq<(u8, u8, u8, u8)>, Seq<u8>),
>;

/// Whether imagequant's failure on these arguments is the quality-too-low one.
pub uninterp spec fn too_low_of(rgba: Seq<u8>, w: usize, h: usize, floor: u8, target: u8) -> bool;

/// Relies on imagequant (`new`, `set_quality`, `new_image_borrowed`, `quantize`,
/// `set_dithering_level`, `remapped`) reading the samples in place through
/// `rgb::FromSlice::as_rgba`: the palette has at most 256 entries and there is
/// one index per pixel of the image. Without its `threads` feature imagequant
/// computes the same result from the same arguments.
#[verifier::external_body]
fn quantize_in_place(rgba: &[u8], w: usize, h: usize, floor: u8, target: u8) -> (r: Result<
    (Vec<(u8, u8, u8, u8)>, Vec<u8>),
    (bool, String),
>)
    requires
        rgba@.len() == w * h * 4,
    ensures
        r is Ok <==> quantized_of(rgba@, w, h, floor, target) is Some,
        r matches Ok((p, i)) ==> quantized_of(rgba@, w, h, floor, target) == Some((p@, i@))
            && p@.len() <= 256 && i@.len() == w * h,
        r matches Err((low, _)) ==> low == too_low_of(rgba@, w, h, floor, target),
{
    let run = || -> Result<_, imagequant::Error> {
        let mut attr = imagequant::new();
        attr.set_quality(floor, target)?;
        let mut img = attr.new_image_borrowed(rgb::FromSlice::as_rgba(rgba), w, h, Default::default())?;
        let mut res = attr.quantize(&mut img)?;
        res.set_dithering_level(1u8.into())?;
        res.remapped(&mut img)
    };
    let (pal, idx) = run().map_err(|e| (matches!(e, imagequant::Error::QualityTooLow), e.to_string()))?;
    Ok((pal.into_iter().map(|c| (c.r, c.g, c.b, c.a)).collect(), idx))
}

/// Relies on the same imagequant sequence as `quantize_in_place`, handed an
/// owned copy of the pixels (`new_image`) instead of a view: the pixels are the
/// same, so the result is too.
#[verifier::external_body]
fn quantize_copied(rgba: &[u8], w: usize, h: usize, floor: u8, target: u8) -> (r: Result<
    (Vec<(u8, u8, u8, u8)>, Vec<u8>),
    (bool, String),
>)
    requires
        rgba@.len() == w * h * 4,
    ensures
        r is Ok <==> quantized_of(rgba@, w, h, floor, target) is Some,
        r matches Ok((p, i)) ==> quantized_of(rgba@, w, h, floor, target) == Some((p@, i@))
            && p@.len() <= 256 && i@.len() == w * h,
        r matches Err((low, _)) ==> low == too_low_of(rgba@, w, h, floor, target),
{
    let run = || -> Result<_, imagequant::Error> {
        let mut attr = imagequant::new();
        attr.set_quality(floor, target)?;
        let mut img = attr.new_image(rgb::FromSlice::as_rgba(rgba).to_vec(), w, h, Default::default())?;
        let mut res = attr.quantize(&mut img)?;
        res.set_dithering_level(1u8.into())?;
        res.remapped(&mut img)
    };
    let (pal, idx) = run().map_err(|e| (matches!(e, imagequant::Error::QualityTooLow), e.to_string()))?;
    Ok((pal.into_iter().map(|c| (c.r, c.g, c.b, c.a)).collect(), idx))
}

/// What the png crate writes for an 8-bit indexed image at best compression
/// with the given color table, optional transparency table and indices.
pub uninterp spec fn png_indexed_of(w: u32, h: u32, plte: Seq<u8>, trns: Option<Seq<u8>>, indices: Seq<u8>) -> Seq<u8>;

/// The big-endian bytes of a 32-bit number.
pub open spec fn be_bytes(n: u32) -> Seq<u8> {
    seq![
        (n / 0x1000000) as u8,
        ((n / 0x10000) % 0x100) as u8,
        ((n / 0x100) % 0x100) as u8,
        (n % 0x100) as u8,
    ]
}

/// A PNG file that opens with the signature and an IHDR chunk for a `w` by
/// `h` image of 8-bit palette indices (bit depth 8, color type 3).
pub open spec fn indexed_png_header(v: Seq<u8>, w: u32, h: u32) -> bool {
    &&& v.len() >= 26
    &&& v.subrange(0, 8) == png_signature()
    &&& v.subrange(8, 16) == seq![0u8, 0u8, 0u8, 13u8, 0x49u8, 0x48u8, 0x44u8, 0x52u8]
    &&& v.subrange(16, 20) == be_bytes(w)
    &&& v.subrange(20, 24) == be_bytes(h)
    &&& v[24] == 8u8
    &&& v[25] == 3u8
}

pub open spec fn opt_bytes(t: Option<Vec<u8>>) -> Option<Seq<u8>> {
    match t {
        Some(v) => Some(v@),
        None => None,
    }
}

/// Relies on `png::Encoder` (`new`, `set_color`, `set_depth`, `set_compression`,
/// `set_palette`, `set_trns`, `write_header`, `write_image_data`) writing into a
/// `Vec<u8>`: it refuses only a zero side or index data of the wrong length, and
/// writes the signature, then the IHDR chunk with the size, bit depth 8 and
/// color type 3.
#[verifier::external_body]
fn write_indexed_png(width: u32, height: u32, plte: Vec<u8>, trns: Option<Vec<u8>>, indices: &[u8]) -> (r: Result<
    Vec<u8>,
    png::EncodingError,
>)
    requires
        indices@.len() == width as int * height as int,
    ensures
        (width > 0 && height > 0) ==> r is Ok,
        r matches Ok(v) ==> v@ == png_indexed_of(width, height, plte@, opt_bytes(trns), indices@)
            && indexed_png_header(v@, width, height),
{
    let mut out = Vec::new();
    let mut encoder = png::Encoder::new(&mut out, width, height);
    encoder.set_color(png::ColorType::Indexed);
    encoder.set_depth(png::BitDepth::Eight);
    encoder.set_compression(png::Compression::Best);
    encoder.set_palette(plte);
    if let Some(t) = trns {
        encoder.set_trns(t);
    }
    encoder.write_header()?.write_image_data(indices)?;
    Ok(out)
}

/// Relies on `Display` of `png::EncodingError` for its diagnostic.
#[verifier::external_body]
fn png_error_text(e: &png::EncodingError) -> (r: String) {
    e.to_string()
}

/// The PNG color table: the red, green and blue of each palette entry, in index order.
pub open spec fn plte_of(pal: Seq<(u8, u8, u8, u8)>) -> Seq<u8> {
    Seq::new(
        pal.len() * 3,
        |i: int|
            if i % 3 == 0 {
                pal[i / 3].0
            } else if i % 3 == 1 {
                pal[i / 3].1
            } else {
                pal[i / 3].2
            },
    )
}

/// The alpha of each palette entry, in index order.
pub open spec fn alphas_of(pal: Seq<(u8, u8, u8, u8)>) -> Seq<u8> {
    Seq::new(pal.len(), |i: int| pal[i].3)
}

/// A transparency table with its trailing fully opaque entries removed.
pub open spec fn trim_opaque(s: Seq<u8>) -> Seq<u8>
    decreases s.len(),
{
    if s.len() > 0 && s.last() == 255u8 {
        trim_opaque(s.drop_last())
    } else {
        s
    }
}

/// Trimming keeps a prefix, ends on a non-opaque entry (or is empty), and
/// drops only opaque entries.
pub proof fn lemma_trim_opaque(s: Seq<u8>)
    ensures
        trim_opaque(s).len() <= s.len(),
        trim_opaque(s) == s.subrange(0, trim_opaque(s).len() as int),
        trim_opaque(s).len() == 0 || trim_opaque(s).last() != 255u8,
        forall|i: int| trim_opaque(s).len() <= i < s.len() ==> s[i] == 255u8,
    decreases s.len(),
{
    if s.len() > 0 && s.last() == 255u8 {
        lemma_trim_opaque(s.drop_last());
        let t = trim_opaque(s.drop_last());
        assert(s.drop_last().subrange(0, t.len() as int) =~= s.subrange(0, t.len() as int));
        assert forall|i: int| t.len() <= i < s.len() implies s[i] == 255u8 by {
            if i < s.len() - 1 {
                assert(s.drop_last()[i] == s[i]);
            }
        }
    } else {
        assert(s.subrange(0, s.len() as int) =~= s);
    }
}

/// Builds the PNG color table from a palette.
pub fn palette_rgb_bytes(pal: &Vec<(u8, u8, u8, u8)>) -> (r: Vec<u8>)
    requires
        pal@.len() <= 256,
    ensures
        r@ == plte_of(pal@),
{
    let mut out: Vec<u8> = Vec::new();
    let mut i: usize = 0;
    while i < pal.len()
        invariant
            pal@.len() <= 256,
            i <= pal@.len(),
            out@.len() == i * 3,
            forall|j: int| 0 <= j < out@.len() ==> out@[j] == plte_of(pal@)[j],
        decreases pal@.len() - i,
    {
        let (r, g, b, _a) = pal[i];
        out.push(r);
        out.push(g);
        out.push(b);
        i = i + 1;
    }
    assert(out@ =~= plte_of(pal@));
    out
}

/// Builds the PNG transparency table from a palette: the alphas in index
/// order, without the trailing fully opaque ones. Empty when all are opaque.
pub fn transparency_table(pal: &Vec<(u8, u8, u8, u8)>) -> (r: Vec<u8>)
    ensures
        r@ == trim_opaque(alphas_of(pal@)),
        r@.len() <= pal@.len(),
        r@.len() == 0 || r@.last() != 255u8,
{
    let mut out: Vec<u8> = Vec::new();
    let mut i: usize = 0;
    while i < pal.len()
        invariant
            i <= pal@.len(),
            out@ == alphas_of(pal@).subrange(0, i as int),
        decreases pal@.len() - i,
    {
        out.push(pal[i].3);
        i = i + 1;
        assert(out@ =~= alphas_of(pal@).subrange(0, i as int));
    }
    assert(out@ =~= alphas_of(pal@));
    let ghost full = out@;
    while out.len() > 0 && out[out.len() - 1] == 255
        invariant
            trim_opaque(out@) == trim_opaque(full),
        decreases out@.len(),
    {
        assert(out@.drop_last() == out@.subrange(0, out@.len() - 1));
        out.pop();
    }
    proof {
        lemma_trim_opaque(full);
    }
    out
}

/// The two tables of an indexed PNG for a palette: the color table, and the
/// transparency table unless every entry is fully opaque.
pub fn indexed_tables(pal: &Vec<(u8, u8, u8, u8)>) -> (r: (Vec<u8>, Option<Vec<u8>>))
    requires
        pal@.len() <= 256,
    ensures
        r.0@ == plte_of(pal@),
        r.0@.len() == 3 * pal@.len() <= 768,
        match r.1 {
            Some(t) => t@ == trim_opaque(alphas_of(pal@)) && 0 < t@.len() <= 256 && t@.last() != 255u8,
            None => trim_opaque(alphas_of(pal@)).len() == 0,
        },
{
    let plte = palette_rgb_bytes(pal);
    let trns = transparency_table(pal);
    if trns.len() == 0 {
        (plte, None)
    } else {
        (plte, Some(trns))
    }
}

/// A palette and one index per pixel.
pub struct QuantizedImage {
    pub palette: Vec<(u8, u8, u8, u8)>,
    pub indices: Vec<u8>,
}

/// The floor of the first quantization attempt for a target quality.
pub open spec fn initial_floor(quality: u8) -> u8 {
    if quality < INITIAL_QUALITY_FLOOR { quality } else { INITIAL_QUALITY_FLOOR }
}

/// Every index names an entry of the palette.
pub open spec fn valid_indices(pal: Seq<(u8, u8, u8, u8)>, idx: Seq<u8>) -> bool {
    forall|k: int| 0 <= k < idx.len() ==> (#[trigger] idx[k]) < pal.len()
}

pub open spec fn checked(x: Option<(Seq<(u8, u8, u8, u8)>, Seq<u8>)>) -> Option<(Seq<(u8, u8, u8, u8)>, Seq<u8>)> {
    match x {
        Some((p, i)) => if valid_indices(p, i) { Some((p, i)) } else { None },
        None => None,
    }
}

/// The quantizer's result: the first attempt with the initial floor; when that
/// fails for want of quality, one retry with the relaxed floor. A result whose
/// indices leave the palette counts as a failure.
pub open spec fn quantize_spec(rgba: Seq<u8>, w: usize, h: usize, quality: u8) -> Option<(Seq<(u8, u8, u8, u8)>, Seq<u8>)> {
    let f = initial_floor(quality);
    match quantized_of(rgba, w, h, f, quality) {
        Some(x) => checked(Some(x)),
        None => if too_low_of(rgba, w, h, f, quality) {
            checked(quantized_of(rgba, w, h, RELAXED_QUALITY_FLOOR, quality))
        } else {
            None
        },
    }
}

fn indices_in_palette(pal: &Vec<(u8, u8, u8, u8)>, idx: &Vec<u8>) -> (r: bool)
    ensures
        r == valid_indices(pal@, idx@),
{
    let mut k: usize = 0;
    while k < idx.len()
        invariant
            k <= idx@.len(),
            forall|j: int| 0 <= j < k ==> (#[trigger] idx@[j]) < pal@.len(),
        decreases idx@.len() - k,
    {
        if idx[k] as usize >= pal.len() {
            return false;
        }
        k = k + 1;
    }
    true
}

fn run_quantizer(rgba: &[u8], w: usize, h: usize, floor: u8, target: u8, zero_copy: bool) -> (r: Result<
    (Vec<(u8, u8, u8, u8)>, Vec<u8>),
    (bool, String),
>)
    requires
        rgba@.len() == w * h * 4,
    ensures
        r is Ok <==> quantized_of(rgba@, w, h, floor, target) is Some,
        r matches Ok((p, i)) ==> quantized_of(rgba@, w, h, floor, target) == Some((p@, i@))
            && p@.len() <= 256 && i@.len() == w * h,
        r matches Err((low, _)) ==> low == too_low_of(rgba@, w, h, floor, target),
{
    if zero_copy {
        quantize_in_place(rgba, w, h, floor, target)
    } else {
        quantize_copied(rgba, w, h, floor, target)
    }
}

/// Reduces an RGBA image to at most 256 colors with full dithering. When the
/// floor cannot be met, retries once with the relaxed floor. With `zero_copy`
/// the quantizer reads the samples in place, else from a copied pixel array;
/// the result is the same either way.
pub fn quantize_rgba(img: &ImageBuffer, quality: u8, zero_copy: bool) -> (r: Result<QuantizedImage, CompressError>)
    requires
        img.wf(),
        img.channels == ColorChannels::Rgba,
        1 <= quality <= 100,
    ensures
        r is Ok <==> quantize_spec(img.data@, img.width as usize, img.height as usize, quality) is Some,
        r matches Ok(q) ==> quantize_spec(img.data@, img.width as usize, img.height as usize, quality)
            == Some((q.palette@, q.indices@)) && q.palette@.len() <= 256 && q.indices@.len()
            == img.width as int * img.height as int && valid_indices(q.palette@, q.indices@),
        r matches Err(e) ==> e matches CompressError::QuantizationFailure(_),
{
    let floor = if quality < INITIAL_QUALITY_FLOOR { quality } else { INITIAL_QUALITY_FLOOR };
    let n = img.data.len();
    assert(img.width as int * img.height as int <= n) by (nonlinear_arith)
        requires n == img.width as int * img.height as int * 4;
    let w = img.width as usize;
    let h = img.height as usize;
    let rgba = img.data.as_slice();
    let (palette, indices) = match run_quantizer(rgba, w, h, floor, quality, zero_copy) {
        Ok(x) => x,
        Err((low, text)) => {
            if !low {
                return Err(CompressError::QuantizationFailure(text));
            }
            match run_quantizer(rgba, w, h, RELAXED_QUALITY_FLOOR, quality, zero_copy) {
                Ok(x) => x,
                Err((_, text)) => return Err(CompressError::QuantizationFailure(text)),
            }
        },
    };
    if !indices_in_palette(&palette, &indices) {
        return Err(CompressError::QuantizationFailure(String::from_str("index outside the palette")));
    }
    Ok(QuantizedImage { palette, indices })
}

/// The transparency table a palette needs, if any.
pub open spec fn trns_of(pal: Seq<(u8, u8, u8, u8)>) -> Option<Seq<u8>> {
    if trim_opaque(alphas_of(pal)).len() == 0 {
        None
    } else {
        Some(trim_opaque(alphas_of(pal)))
    }
}

/// The indexed PNG the quantizer produces for an RGBA image, or `None` when
/// the image is empty or quantization fails.
pub open spec fn png_spec(rgba: Seq<u8>, w: u32, h: u32, quality: u8) -> Option<Seq<u8>> {
    if w == 0 || h == 0 {
        None
    } else {
        match quantize_spec(rgba, w as usize, h as usize, quality) {
            Some((p, i)) => Some(png_indexed_of(w, h, plte_of(p), trns_of(p), i)),
            None => None,
        }
    }
}

/// The PNG quantizer: palette reduction, then an indexed PNG whose color table
/// lists the palette's colors in index order and whose transparency table is
/// the trimmed list of its alphas. The result does not depend on `zero_copy`.
pub fn do_png_compression(img: &ImageBuffer, quality: u8, zero_copy: bool) -> (r: Result<(Vec<u8>, u32, u32), CompressError>)
    requires
        img.wf(),
        img.channels == ColorChannels::Rgba,
        1 <= quality <= 100,
    ensures
        r is Ok <==> png_spec(img.data@, img.width, img.height, quality) is Some,
        r matches Ok((v, w, h)) ==> Some(v@) == png_spec(img.data@, img.width, img.height, quality)
            && w == img.width && h == img.height && indexed_png_header(v@, w, h),
        r matches Err(e) ==> (e matches CompressError::QuantizationFailure(_)) || (
        e matches CompressError::EncodeError(_)),
{
    if img.width == 0 || img.height == 0 {
        return Err(CompressError::EncodeError(String::from_str("empty image")));
    }
    let q = quantize_rgba(img, quality, zero_copy)?;
    let (plte, trns) = indexed_tables(&q.palette);
    assert(opt_bytes(trns) == trns_of(q.palette@));
    match write_indexed_png(img.width, img.height, plte, trns, q.indices.as_slice()) {
        Ok(v) => Ok((v, img.width, img.height)),
        Err(e) => Err(CompressError::EncodeError(png_error_text(&e))),
    }
}

} // verus!
