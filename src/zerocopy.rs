use vstd::prelude::*;
use vstd::layout::{size_of, align_of};

verus! {

#[verifier::external_type_specification]
#[verifier::external_body]
#[verifier::reject_recursive_types(T)]
#[verifier::reject_recursive_types(A)]
pub struct ExRgba<T, A>(rgb::Rgba<T, A>);

/// The red, green, blue and alpha fields the quantizer's pixel type shows when
/// four bytes are viewed in place as one pixel.
pub uninterp spec fn reinterpreted_fields(bytes: Seq<u8>) -> (u8, u8, u8, u8);

/// Relies on `rgb::FromSlice::as_rgba`, the in-place view the zero-copy path
/// uses, and reads back the fields of the first pixel.
#[verifier::external_body]
fn read_back_pixel(bytes: &[u8]) -> (r: (u8, u8, u8, u8))
    requires
        bytes@.len() == 4,
    ensures
        r == reinterpreted_fields(bytes@),
{
    let p = rgb::FromSlice::as_rgba(bytes)[0];
    (p.r, p.g, p.b, p.a)
}

/// The probe pattern written into a pixel.
pub open spec fn probe() -> Seq<u8> {
    seq![0x12u8, 0x34u8, 0x56u8, 0x78u8]
}

/// True when the fields of the quantizer's pixel read back in R, G, B, A order.
pub open spec fn layout_in_rgba_order() -> bool {
    reinterpreted_fields(probe()) == (0x12u8, 0x34u8, 0x56u8, 0x78u8)
}

/// Writes a known pattern into a pixel and checks that its fields read back
/// in R, G, B, A order.
pub fn is_rgba_layout_compatible() -> (r: bool)
    ensures
        r == layout_in_rgba_order(),
{
    let bytes: [u8; 4] = [0x12, 0x34, 0x56, 0x78];
    let slice: &[u8] = &bytes;
    assert(slice@ =~= probe());
    let (red, green, blue, alpha) = read_back_pixel(slice);
    red == 0x12 && green == 0x34 && blue == 0x56 && alpha == 0x78
}

/// True when the quantizer's pixel type is four bytes, byte-aligned and in
/// R, G, B, A order, so that an RGBA byte buffer can be handed over in place.
pub open spec fn zero_copy_ok() -> bool {
    size_of::<imagequant::RGBA>() == 4 && align_of::<imagequant::RGBA>() == 1 && layout_in_rgba_order()
}

/// Decides whether the quantizer may read an RGBA buffer in place.
pub fn can_use_zero_copy() -> (r: bool)
    ensures
        r == zero_copy_ok(),
{
    core::mem::size_of::<imagequant::RGBA>() == 4 && core::mem::align_of::<imagequant::RGBA>() == 1
        && is_rgba_layout_compatible()
}

} // verus!
