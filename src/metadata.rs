use vstd::prelude::*;
use crate::text::{decimal, decimal_string};

verus! {

/// The short integers of the primary image's orientation tag, as
/// kamadak-exif reads them from a JPEG; `None` when the metadata is absent,
/// malformed, or the tag is missing or of another type.
pub uninterp spec fn orientation_field_of(data: Seq<u8>) -> Option<Seq<u16>>;

/// The displayed camera make of the primary image, as kamadak-exif shows it.
pub uninterp spec fn make_field_of(data: Seq<u8>) -> Option<Seq<char>>;

/// The displayed camera model of the primary image, as kamadak-exif shows it.
pub uninterp spec fn model_field_of(data: Seq<u8>) -> Option<Seq<char>>;

/// Relies on `exif::Reader::read_from_container` and `Exif::get_field` for the
/// orientation tag of the primary image, kept only when it holds shorts.
#[verifier::external_body]
fn exif_orientation_values(data: &[u8]) -> (r: Option<Vec<u16>>)
    ensures
        match r {
            Some(v) => orientation_field_of(data@) == Some(v@),
            None => orientation_field_of(data@) is None,
        },
{
    let exif = exif::Reader::new().read_from_container(&mut std::io::Cursor::new(data)).ok()?;
    match exif.get_field(exif::Tag::Orientation, exif::In::PRIMARY).map(|f| &f.value) {
        Some(exif::Value::Short(v)) => Some(v.clone()),
        _ => None,
    }
}

/// Relies on `exif::Reader::read_from_container`, `Exif::get_field` and
/// `Field::display_value` for the camera make.
#[verifier::external_body]
fn exif_make(data: &[u8]) -> (r: Option<String>)
    ensures
        opt_view(r) == make_field_of(data@),
{
    let exif = exif::Reader::new().read_from_container(&mut std::io::Cursor::new(data)).ok()?;
    exif.get_field(exif::Tag::Make, exif::In::PRIMARY).map(|f| f.display_value().to_string())
}

/// Relies on `exif::Reader::read_from_container`, `Exif::get_field` and
/// `Field::display_value` for the camera model.
#[verifier::external_body]
fn exif_model(data: &[u8]) -> (r: Option<String>)
    ensures
        opt_view(r) == model_field_of(data@),
{
    let exif = exif::Reader::new().read_from_container(&mut std::io::Cursor::new(data)).ok()?;
    exif.get_field(exif::Tag::Model, exif::In::PRIMARY).map(|f| f.display_value().to_string())
}

/// The orientation code of a JPEG: the first value of its orientation tag.
pub open spec fn orientation_code_of(data: Seq<u8>) -> Option<u16> {
    match orientation_field_of(data) {
        Some(v) => if v.len() > 0 { Some(v[0]) } else { None },
        None => None,
    }
}

/// What the metadata reader found: an orientation code and camera fields.
pub struct Metadata {
    pub orientation: Option<u16>,
    pub make: Option<String>,
    pub model: Option<String>,
}

/// The orientation is the first value of the tag; an empty tag counts as absent.
pub fn first_orientation(values: &Option<Vec<u16>>) -> (r: Option<u16>)
    ensures
        r == (match values {
            Some(v) => if v@.len() > 0 { Some(v@[0]) } else { None },
            None => None,
        }),
{
    match values {
        Some(v) => if v.len() > 0 { Some(v[0]) } else { None },
        None => None,
    }
}

/// Reads the orientation code and camera fields of a JPEG without decoding
/// its pixels. Missing or malformed metadata yields an empty record.
pub fn read_metadata(data: &[u8]) -> (r: Metadata)
    ensures
        r.orientation == orientation_code_of(data@),
        opt_view(r.make) == make_field_of(data@),
        opt_view(r.model) == model_field_of(data@),
{
    let values = exif_orientation_values(data);
    Metadata { orientation: first_orientation(&values), make: exif_make(data), model: exif_model(data) }
}

/// Reads only the orientation code of a JPEG.
pub fn read_exif_orientation(data: &[u8]) -> (r: Option<u16>)
    ensures
        r == orientation_code_of(data@),
{
    let values = exif_orientation_values(data);
    first_orientation(&values)
}

/// The name of the transform an orientation code calls for.
pub open spec fn transform_name(code: u16) -> Seq<char> {
    if code == 1 {
        "identity"@
    } else if code == 2 {
        "horizontal flip"@
    } else if code == 3 {
        "rotate 180"@
    } else if code == 4 {
        "vertical flip"@
    } else if code == 5 {
        "rotate 270 clockwise, then horizontal flip"@
    } else if code == 6 {
        "rotate 90 clockwise"@
    } else if code == 7 {
        "rotate 90 clockwise, then horizontal flip"@
    } else if code == 8 {
        "rotate 270 clockwise"@
    } else {
        "unknown code, left as is"@
    }
}

pub fn transform_name_str(code: u16) -> (r: &'static str)
    ensures
        r@ == transform_name(code),
{
    if code == 1 {
        "identity"
    } else if code == 2 {
        "horizontal flip"
    } else if code == 3 {
        "rotate 180"
    } else if code == 4 {
        "vertical flip"
    } else if code == 5 {
        "rotate 270 clockwise, then horizontal flip"
    } else if code == 6 {
        "rotate 90 clockwise"
    } else if code == 7 {
        "rotate 90 clockwise, then horizontal flip"
    } else if code == 8 {
        "rotate 270 clockwise"
    } else {
        "unknown code, left as is"
    }
}

/// The orientation part of the summary text.
pub open spec fn orientation_note(read: bool, code: Option<u16>) -> Seq<char> {
    if !read {
        "No EXIF processing"@
    } else {
        match code {
            Some(c) => "Applied EXIF orientation: "@ + decimal(c as nat) + " ("@ + transform_name(c)
                + ")"@,
            None => "No EXIF orientation found"@,
        }
    }
}

/// A labelled camera field of the summary, or nothing when it is absent.
pub open spec fn field_note(label: Seq<char>, value: Option<Seq<char>>) -> Seq<char> {
    match value {
        Some(v) => label + v,
        None => Seq::empty(),
    }
}

pub open spec fn opt_view(s: Option<String>) -> Option<Seq<char>> {
    match s {
        Some(v) => Some(v@),
        None => None,
    }
}

/// The summary text of a request: what was done about orientation, then the
/// camera make and model when the metadata names them. `read` tells whether
/// the input was a JPEG whose metadata was consulted.
pub open spec fn summary_text(read: bool, meta: Metadata) -> Seq<char> {
    summary_of(read, meta.orientation, opt_view(meta.make), opt_view(meta.model))
}

pub open spec fn summary_of(read: bool, code: Option<u16>, make: Option<Seq<char>>, model: Option<Seq<char>>) -> Seq<char> {
    orientation_note(read, code) + field_note(", Make: "@, make) + field_note(", Model: "@, model)
}

/// Writes the summary text of a request.
pub fn exif_summary(read: bool, meta: &Metadata) -> (r: String)
    ensures
        r@ == summary_text(read, *meta),
{
    let mut s = if !read {
        String::from_str("No EXIF processing")
    } else {
        match meta.orientation {
            Some(c) => {
                let mut t = String::from_str("Applied EXIF orientation: ");
                let num = decimal_string(c as u64);
                t.append(num.as_str());
                t.append(" (");
                t.append(transform_name_str(c));
                t.append(")");
                t
            },
            None => String::from_str("No EXIF orientation found"),
        }
    };
    let ghost before = s@;
    assert(before == orientation_note(read, meta.orientation));
    match &meta.make {
        Some(m) => {
            s.append(", Make: ");
            s.append(m.as_str());
        },
        None => {},
    }
    assert(s@ =~= before + field_note(", Make: "@, opt_view(meta.make)));
    let ghost mid = s@;
    match &meta.model {
        Some(m) => {
            s.append(", Model: ");
            s.append(m.as_str());
        },
        None => {},
    }
    assert(s@ =~= mid + field_note(", Model: "@, opt_view(meta.model)));
    s
}

} // verus!
