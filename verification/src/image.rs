//! Image validation: strip a data-URL prefix, decode the base64 payload,
//! enforce the size bounds, and sniff the media type from the magic bytes.

use vstd::prelude::*;
use base64::Engine;
use crate::types::{ProcessedImage, ProcessedImageView};
use crate::text::{starts_with_spec, starts_with_str, find_char};
use crate::{MAX_IMAGE_BYTES, MIN_IMAGE_BYTES};

verus! {

/// What the base64 crate's standard-alphabet decoder yields on a given
/// text: `None` where the text is not valid base64.
pub uninterp spec fn base64_decoding(s: Seq<char>) -> Option<Seq<u8>>;

/// The base64 crate's standard-alphabet encoding of the given bytes.
pub uninterp spec fn base64_encoding(b: Seq<u8>) -> Seq<char>;

/// Relies on `base64::engine::general_purpose::STANDARD`'s
/// `Engine::decode`: standard-alphabet base64 decoding, rejecting
/// malformed input. The result is a function of the input text alone.
#[verifier::external_body]
fn decode_base64(s: &str) -> (r: Option<Vec<u8>>)
    ensures
        (r is Some) == (base64_decoding(s@) is Some),
        r matches Some(v) ==> base64_decoding(s@) matches Some(b) && v@ == b,
{
    match base64::engine::general_purpose::STANDARD.decode(s) {
        Ok(v) => Some(v),
        Err(_) => None,
    }
}

/// Relies on `base64::engine::general_purpose::STANDARD`'s
/// `Engine::encode`: the output is drawn from the standard alphabet plus
/// `=` padding (so it contains neither `:` nor `,`), and decoding with the
/// same engine inverts it.
#[verifier::external_body]
pub(crate) fn encode_base64(b: &[u8]) -> (r: String)
    ensures
        r@ == base64_encoding(b@),
        base64_decoding(r@) == Some(b@),
        forall|i: int| 0 <= i < r@.len() ==> r@[i] != ':' && r@[i] != ',',
{
    base64::engine::general_purpose::STANDARD.encode(b)
}

/// Why a submitted payload was rejected.
#[derive(Clone, Copy, Debug, PartialEq, Eq, Structural)]
pub enum ValidationError {
    /// A data-URL marker without the `,` that ends its header.
    InvalidDataUrl,
    /// The payload is not valid base64.
    InvalidBase64,
    /// The decoded image is under the minimum size.
    TooSmall,
    /// The decoded image is over the maximum size.
    TooLarge,
}

impl ValidationError {
    /// The human-readable description of this rejection.
    pub open spec fn message_spec(self) -> Seq<char> {
        match self {
            ValidationError::InvalidDataUrl => "Invalid data URL format"@,
            ValidationError::InvalidBase64 => "Invalid base64"@,
            ValidationError::TooSmall => "Image too small"@,
            ValidationError::TooLarge => "Image too large (max 15MB)"@,
        }
    }

    /// The human-readable description of this rejection.
    pub fn message(&self) -> (r: String)
        ensures
            r@ == self.message_spec(),
    {
        match self {
            ValidationError::InvalidDataUrl => "Invalid data URL format".to_owned(),
            ValidationError::InvalidBase64 => "Invalid base64".to_owned(),
            ValidationError::TooSmall => "Image too small".to_owned(),
            ValidationError::TooLarge => "Image too large (max 15MB)".to_owned(),
        }
    }
}

/// `i` is the position of the first comma in `s`.
pub open spec fn is_first_comma(s: Seq<char>, i: int) -> bool {
    0 <= i < s.len() && s[i] == ',' && forall|k: int| 0 <= k < i ==> s[k] != ','
}

/// At most one position is the first comma.
pub proof fn lemma_first_comma_unique(s: Seq<char>, i1: int, i2: int)
    requires
        is_first_comma(s, i1),
        is_first_comma(s, i2),
    ensures
        i1 == i2,
{
    if i1 < i2 {
        assert(s[i1] != ',');
    }
    if i2 < i1 {
        assert(s[i2] != ',');
    }
}

/// The base64 text of a submission: everything after the first comma when
/// the input carries a data-URL marker (`None` if the marker has no
/// comma), the input itself otherwise.
pub open spec fn stripped_payload(s: Seq<char>) -> Option<Seq<char>> {
    if starts_with_spec(s, "data:image"@) {
        if exists|i: int| is_first_comma(s, i) {
            Some(s.subrange((choose|i: int| is_first_comma(s, i)) + 1, s.len() as int))
        } else {
            None
        }
    } else {
        Some(s)
    }
}

/// Leading bytes `89 50 4E 47`: a PNG image.
pub open spec fn png_magic(b: Seq<u8>) -> bool {
    b.len() >= 4 && b[0] == 0x89u8 && b[1] == 0x50u8 && b[2] == 0x4eu8 && b[3] == 0x47u8
}

/// Leading bytes `FF D8 FF`: a JPEG image.
pub open spec fn jpeg_magic(b: Seq<u8>) -> bool {
    b.len() >= 3 && b[0] == 0xffu8 && b[1] == 0xd8u8 && b[2] == 0xffu8
}

/// The media type sniffed from the decoded bytes; PNG is the conservative
/// fallback for unrecognized headers.
pub open spec fn media_type_of(b: Seq<u8>) -> Seq<char> {
    if png_magic(b) {
        "image/png"@
    } else if jpeg_magic(b) {
        "image/jpeg"@
    } else {
        "image/png"@
    }
}

/// The full outcome of validating a submitted payload.
pub open spec fn validation_of(s: Seq<char>) -> Result<ProcessedImageView, ValidationError> {
    match stripped_payload(s) {
        None => Err(ValidationError::InvalidDataUrl),
        Some(c) => match base64_decoding(c) {
            None => Err(ValidationError::InvalidBase64),
            Some(b) => if b.len() > MAX_IMAGE_BYTES as int {
                Err(ValidationError::TooLarge)
            } else if b.len() < MIN_IMAGE_BYTES as int {
                Err(ValidationError::TooSmall)
            } else {
                Ok(
                    ProcessedImageView {
                        base64_data: c,
                        media_type: media_type_of(b),
                        size_bytes: b.len() as usize,
                    },
                )
            },
        },
    }
}

/// Validate a submitted payload: strip any data-URL prefix, decode the
/// base64 text, enforce the size bounds, and sniff the media type.
pub fn prepare_image_data(image_base64: &str) -> (r: Result<ProcessedImage, ValidationError>)
    ensures
        match r {
            Ok(pi) => validation_of(image_base64@) matches Ok(pv) && pi@ == pv,
            Err(e) => validation_of(image_base64@) matches Err(ev) && e == ev,
        },
{
    let n = image_base64.unicode_len();
    let clean: String = if starts_with_str(image_base64, "data:image") {
        match find_char(image_base64, ',') {
            Some(i) => {
                proof {
                    assert(is_first_comma(image_base64@, i as int));
                    let j = choose|j: int| is_first_comma(image_base64@, j);
                    lemma_first_comma_unique(image_base64@, i as int, j);
                }
                let sub = image_base64.substring_char(i + 1, n);
                sub.to_owned()
            },
            None => {
                proof {
                    if exists|j: int| is_first_comma(image_base64@, j) {
                        let j = choose|j: int| is_first_comma(image_base64@, j);
                        assert(image_base64@[j] == ',');
                    }
                }
                return Err(ValidationError::InvalidDataUrl);
            },
        }
    } else {
        image_base64.to_owned()
    };
    assert(stripped_payload(image_base64@) == Some(clean@));
    match decode_base64(clean.as_str()) {
        None => Err(ValidationError::InvalidBase64),
        Some(bytes) => {
            if bytes.len() > MAX_IMAGE_BYTES {
                Err(ValidationError::TooLarge)
            } else if bytes.len() < MIN_IMAGE_BYTES {
                Err(ValidationError::TooSmall)
            } else {
                let is_png = bytes.len() >= 4 && *bytes.get(0).unwrap() == 0x89u8 && *bytes.get(
                    1,
                ).unwrap() == 0x50u8 && *bytes.get(2).unwrap() == 0x4eu8 && *bytes.get(3).unwrap()
                    == 0x47u8;
                let is_jpeg = bytes.len() >= 3 && *bytes.get(0).unwrap() == 0xffu8 && *bytes.get(
                    1,
                ).unwrap() == 0xd8u8 && *bytes.get(2).unwrap() == 0xffu8;
                let media_type: String = if is_png {
                    "image/png".to_owned()
                } else if is_jpeg {
                    "image/jpeg".to_owned()
                } else {
                    "image/png".to_owned()
                };
                Ok(
                    ProcessedImage {
                        base64_data: clean,
                        media_type,
                        size_bytes: bytes.len(),
                    },
                )
            }
        },
    }
}

/// Any payload whose decoded size lies inside the accepted bounds
/// validates, and the media type follows the magic bytes; any size outside
/// the bounds is rejected with the matching classification.
pub proof fn lemma_validation_size_bounds(s: Seq<char>, c: Seq<char>, b: Seq<u8>)
    requires
        stripped_payload(s) == Some(c),
        base64_decoding(c) == Some(b),
    ensures
        MIN_IMAGE_BYTES <= b.len() <= MAX_IMAGE_BYTES ==> (validation_of(s) matches Ok(pv)
            && pv.base64_data == c && pv.media_type == media_type_of(b) && pv.size_bytes
            == b.len()),
        b.len() < MIN_IMAGE_BYTES ==> validation_of(s) == Result::<
            ProcessedImageView,
            ValidationError,
        >::Err(ValidationError::TooSmall),
        b.len() > MAX_IMAGE_BYTES ==> validation_of(s) == Result::<
            ProcessedImageView,
            ValidationError,
        >::Err(ValidationError::TooLarge),
{
}

/// A validated image's decoded size always lies inside the accepted
/// bounds: no other ProcessedImage ever leaves validation.
pub proof fn lemma_validated_size_in_bounds(s: Seq<char>)
    ensures
        validation_of(s) matches Ok(pv) ==> MIN_IMAGE_BYTES <= pv.size_bytes <= MAX_IMAGE_BYTES,
{
}

/// A data-URL-prefixed payload and the bare payload validate to the same
/// outcome: the prefix (anything up to the first comma) does not matter.
pub proof fn lemma_data_url_equivalence(prefix: Seq<char>, payload: Seq<char>)
    requires
        starts_with_spec(prefix, "data:image"@),
        forall|k: int| 0 <= k < prefix.len() ==> prefix[k] != ',',
        !starts_with_spec(payload, "data:image"@),
    ensures
        validation_of(prefix + seq![','] + payload) == validation_of(payload),
{
    let w = prefix + seq![','] + payload;
    let m = "data:image"@.len() as int;
    assert(w.subrange(0, m) =~= prefix.subrange(0, m));
    assert(starts_with_spec(w, "data:image"@));
    assert(is_first_comma(w, prefix.len() as int));
    let j = choose|j: int| is_first_comma(w, j);
    lemma_first_comma_unique(w, j, prefix.len() as int);
    assert(w.subrange(prefix.len() as int + 1, w.len() as int) =~= payload);
    assert(stripped_payload(w) == Some(payload));
    assert(stripped_payload(payload) == Some(payload));
}

} // verus!
