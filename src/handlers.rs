use vstd::prelude::*;
use crate::convert::image_error_text;
use crate::text::{decimal, decimal_string, lower_of, lowercase, parse_unsigned, parsed_unsigned, str_eq};

verus! {

/// Query parameters of a compression request.
#[derive(Debug, Clone)]
pub struct CompressionQuery {
    pub quality: Option<u8>,
    pub format: Option<String>,
    pub algorithm: Option<String>,
}

/// An uploaded file with what the form said about it.
pub struct FileUpload {
    pub data: Vec<u8>,
    pub filename: Option<String>,
    pub content_type: Option<String>,
}

impl FileUpload {
    /// An empty upload.
    pub fn new() -> (r: Self)
        ensures
            r.data@.len() == 0,
            r.filename is None,
            r.content_type is None,
    {
        FileUpload { data: Vec::new(), filename: None, content_type: None }
    }
}

/// Quality used when neither the query nor the form gives one.
pub const DEFAULT_REQUEST_QUALITY: u8 = 85;

/// The longest text field a form may send, in bytes.
pub const MAX_TEXT_FIELD_BYTES: usize = 1024;

pub open spec fn ends_with(s: Seq<char>, suffix: Seq<char>) -> bool {
    s.len() >= suffix.len() && s.subrange(s.len() - suffix.len(), s.len() as int) == suffix
}

/// Whether `s` ends with `suffix`.
pub fn str_ends_with(s: &str, suffix: &str) -> (r: bool)
    ensures
        r == ends_with(s@, suffix@),
{
    let n = s.unicode_len();
    let m = suffix.unicode_len();
    if m > n {
        return false;
    }
    let mut i: usize = 0;
    while i < m
        invariant
            n == s@.len(),
            m == suffix@.len(),
            m <= n,
            i <= m,
            forall|j: int| 0 <= j < i ==> s@[n - m + j] == suffix@[j],
        decreases m - i,
    {
        if s.get_char(n - m + i) != suffix.get_char(i) {
            assert(s@.subrange(n - m, n as int)[i as int] != suffix@[i as int]);
            return false;
        }
        i = i + 1;
    }
    assert(s@.subrange(n - m, n as int) =~= suffix@);
    true
}

/// The target format a request asks for: the query's, else PNG for a file
/// whose name ends in `.png` (in any case), else JPEG.
pub open spec fn target_format(query_format: Option<Seq<char>>, filename: Option<Seq<char>>) -> Seq<char> {
    match query_format {
        Some(f) => f,
        None => {
            let name = match filename {
                Some(n) => n,
                None => Seq::empty(),
            };
            if ends_with(lower_of(name), ".png"@) { "png"@ } else { "jpeg"@ }
        },
    }
}

/// The quality a request asks for: the query's, else the form's when it reads
/// as a byte-sized number, else the default; then clamped to 1..=100.
pub open spec fn request_quality(query_quality: Option<u8>, form_quality: Option<Seq<char>>) -> u8 {
    let q: u8 = match query_quality {
        Some(q) => q,
        None => match form_quality {
            Some(s) => match parsed_unsigned(s, 255) {
                Some(n) => n as u8,
                None => DEFAULT_REQUEST_QUALITY,
            },
            None => DEFAULT_REQUEST_QUALITY,
        },
    };
    if q < 1 { 1 } else if q > 100 { 100 } else { q }
}

pub open spec fn opt_text(s: Option<String>) -> Option<Seq<char>> {
    match s {
        Some(v) => Some(v@),
        None => None,
    }
}

/// What a request resolved to.
pub struct RequestParams {
    pub format: String,
    pub quality: u8,
    pub algorithm: String,
}

/// Resolves format, quality and strategy of a request from its query, the
/// uploaded file name, the form fields and the configured default strategy.
pub fn resolve_request_params(
    query: &CompressionQuery,
    filename: &Option<String>,
    form_quality: &Option<String>,
    form_algorithm: &Option<String>,
    default_algorithm: &str,
) -> (r: RequestParams)
    ensures
        r.format@ == target_format(opt_text(query.format), opt_text(*filename)),
        r.quality == request_quality(query.quality, opt_text(*form_quality)),
        1 <= r.quality <= 100,
        r.algorithm@ == match query.algorithm {
            Some(a) => a@,
            None => match form_algorithm {
                Some(a) => a@,
                None => default_algorithm@,
            },
        },
{
    let format = match &query.format {
        Some(f) => f.clone(),
        None => {
            let name = match filename {
                Some(n) => lowercase(n.as_str()),
                None => lowercase(""),
            };
            proof {
                reveal_strlit("");
                assert(""@ =~= Seq::<char>::empty());
            }
            assert(name@ == lower_of(
                match opt_text(*filename) {
                    Some(n) => n,
                    None => Seq::empty(),
                },
            ));
            if str_ends_with(name.as_str(), ".png") {
                String::from_str("png")
            } else {
                String::from_str("jpeg")
            }
        },
    };
    let q: u8 = match query.quality {
        Some(q) => q,
        None => match form_quality {
            Some(s) => match parse_unsigned(s.as_str(), 255) {
                Some(n) => n as u8,
                None => DEFAULT_REQUEST_QUALITY,
            },
            None => DEFAULT_REQUEST_QUALITY,
        },
    };
    let quality = if q < 1 {
        1
    } else if q > 100 {
        100
    } else {
        q
    };
    let algorithm = match &query.algorithm {
        Some(a) => a.clone(),
        None => match form_algorithm {
            Some(a) => a.clone(),
            None => String::from_str(default_algorithm),
        },
    };
    RequestParams { format, quality, algorithm }
}

/// The media type of an output format name.
pub open spec fn content_type_of(lower: Seq<char>) -> Seq<char> {
    if lower == "jpeg"@ || lower == "jpg"@ {
        "image/jpeg"@
    } else if lower == "png"@ {
        "image/png"@
    } else if lower == "webp"@ {
        "image/webp"@
    } else {
        "application/octet-stream"@
    }
}

/// The media type of an already lower-cased format name.
pub fn content_type_for_lowercase(l: &str) -> (r: &'static str)
    ensures
        r@ == content_type_of(l@),
{
    if str_eq(l, "jpeg") || str_eq(l, "jpg") {
        "image/jpeg"
    } else if str_eq(l, "png") {
        "image/png"
    } else if str_eq(l, "webp") {
        "image/webp"
    } else {
        "application/octet-stream"
    }
}

/// The media type of an output format name, in any case.
pub fn determine_output_content_type(format: &str) -> (r: &'static str)
    ensures
        r@ == content_type_of(lower_of(format@)),
{
    let l = lowercase(format);
    content_type_for_lowercase(l.as_str())
}

/// The file extension of an output format name.
pub open spec fn extension_of(lower: Seq<char>) -> Seq<char> {
    if lower == "jpeg"@ || lower == "jpg"@ {
        "jpg"@
    } else if lower == "png"@ {
        "png"@
    } else if lower == "webp"@ {
        "webp"@
    } else {
        "bin"@
    }
}

fn extension_for_lowercase(l: &str) -> (r: &'static str)
    ensures
        r@ == extension_of(l@),
{
    if str_eq(l, "jpeg") || str_eq(l, "jpg") {
        "jpg"
    } else if str_eq(l, "png") {
        "png"
    } else if str_eq(l, "webp") {
        "webp"
    } else {
        "bin"
    }
}

/// What `Path::file_stem` makes of a file name: the last component without
/// its extension, when there is one.
pub uninterp spec fn stem_of(name: Seq<char>) -> Option<Seq<char>>;

/// Relies on `std::path::Path::file_stem`, kept when it is valid text.
#[verifier::external_body]
fn file_stem_text(name: &str) -> (r: Option<String>)
    ensures
        match r {
            Some(s) => stem_of(name@) == Some(s@),
            None => stem_of(name@) is None,
        },
{
    std::path::Path::new(name).file_stem().and_then(|s| s.to_str()).map(|s| s.to_string())
}

/// The base of an output file name: the stem of the uploaded name, else
/// `compressed_` and a fresh identifier.
pub open spec fn output_base(original: Option<Seq<char>>, fresh_id: Seq<char>) -> Seq<char> {
    match original {
        Some(n) => match stem_of(n) {
            Some(s) => s,
            None => "compressed_"@ + fresh_id,
        },
        None => "compressed_"@ + fresh_id,
    }
}

/// The name of the file sent back: the base, `_compressed.` and the extension
/// of the target format.
pub fn generate_output_filename(original_filename: &Option<String>, format: &str, fresh_id: &str) -> (r: String)
    ensures
        r@ == output_base(opt_text(*original_filename), fresh_id@) + "_compressed."@ + extension_of(
            lower_of(format@),
        ),
{
    let stem = match original_filename {
        Some(n) => file_stem_text(n.as_str()),
        None => None,
    };
    let mut s = match stem {
        Some(st) => st,
        None => {
            let mut b = String::from_str("compressed_");
            b.append(fresh_id);
            b
        },
    };
    s.append("_compressed.");
    let l = lowercase(format);
    s.append(extension_for_lowercase(l.as_str()));
    s
}

/// Relies on `uuid::Uuid::new_v4`: a random identifier in its hyphenated form.
#[verifier::external_body]
fn random_id() -> (r: String)
    ensures
        r@.len() == 36,
{
    uuid::Uuid::new_v4().to_string()
}

/// Names the file sent back, drawing a fresh identifier for uploads whose
/// name gives no stem.
pub fn new_output_filename(original_filename: &Option<String>, format: &str) -> (r: String)
    ensures
        exists|id: Seq<char>| id.len() == 36 && r@ == output_base(opt_text(*original_filename), id)
            + "_compressed."@ + extension_of(lower_of(format@)),
{
    let id = random_id();
    generate_output_filename(original_filename, format, id.as_str())
}

/// The size an upload reaches with one more chunk, or `None` when that passes
/// the limit.
pub fn next_upload_size(total: usize, chunk_len: usize, max_size_bytes: usize) -> (r: Option<usize>)
    ensures
        r == (if total + chunk_len <= max_size_bytes {
            Some((total + chunk_len) as usize)
        } else {
            None::<usize>
        }),
{
    if chunk_len > max_size_bytes || total > max_size_bytes - chunk_len {
        None
    } else {
        Some(total + chunk_len)
    }
}

/// Whether a text field of this many bytes is short enough.
pub fn text_field_fits(len: usize) -> (r: bool)
    ensures
        r == (len <= MAX_TEXT_FIELD_BYTES),
{
    len <= MAX_TEXT_FIELD_BYTES
}

} // verus!
