//! Images as `data:` URLs, for display without a file server.

use crate::text::{extension, extension_of, str_equal};
use vstd::prelude::*;
use vstd::string::StringExecFns;

verus! {

/// The standard base64 encoding of `data`, with padding.
pub uninterp spec fn base64_standard(data: Seq<u8>) -> Seq<char>;

/// The lowercase form of `text`.
pub uninterp spec fn lowercase(text: Seq<char>) -> Seq<char>;

/// The number of characters in the padded base64 encoding of `len` bytes:
/// four for every three bytes or part of them.
pub open spec fn base64_len(len: nat) -> nat {
    4 * ((len + 2) / 3)
}

/// Whether the padded base64 encoding of `len` bytes has a length that fits a
/// `usize`, so that the bytes can be encoded.
pub fn base64_fits(len: usize) -> (fits: bool)
    ensures
        fits == (base64_len(len as nat) <= usize::MAX),
{
    let groups: usize = if len % 3 == 0 {
        len / 3
    } else {
        len / 3 + 1
    };
    assert(groups == (len + 2) / 3);
    groups <= usize::MAX / 4
}

/// Calls `encode` of the `base64` crate's `STANDARD` engine. Trusted: the
/// text it returns is the standard padded base64 encoding of `data`. The
/// call panics where the length of that text does not fit a `usize`, so such
/// data is not accepted.
#[verifier::external_body]
fn encode_base64(data: &[u8]) -> (text: String)
    requires
        base64_len(data@.len()) <= usize::MAX,
    ensures
        text@ == base64_standard(data@),
{
    base64::Engine::encode(&base64::engine::general_purpose::STANDARD, data)
}

/// Calls `str::to_lowercase`. Trusted: the text it returns is the lowercase
/// form of `text`, as Unicode defines it.
#[verifier::external_body]
fn to_lowercase(text: &str) -> (lower: String)
    ensures
        lower@ == lowercase(text@),
{
    text.to_lowercase()
}

/// The media type of an image file with the given extension, which is
/// expected in lowercase. An extension that is not known counts as PNG.
pub open spec fn mime_of(ext: Seq<char>) -> Seq<char> {
    if ext == "jpg"@ || ext == "jpeg"@ {
        "image/jpeg"@
    } else if ext == "png"@ {
        "image/png"@
    } else if ext == "gif"@ {
        "image/gif"@
    } else if ext == "webp"@ {
        "image/webp"@
    } else if ext == "bmp"@ {
        "image/bmp"@
    } else {
        "image/png"@
    }
}

/// A `data:` URL of the given media type around base64 text.
pub open spec fn spec_data_url(mime: Seq<char>, encoded: Seq<char>) -> Seq<char> {
    "data:"@ + mime + ";base64,"@ + encoded
}

/// The media type of an image file with the given extension, which is
/// expected in lowercase. An extension that is not known counts as PNG.
pub fn mime_for_extension(ext: &str) -> (mime: &'static str)
    ensures
        mime@ == mime_of(ext@),
{
    if str_equal(ext, "jpg") || str_equal(ext, "jpeg") {
        "image/jpeg"
    } else if str_equal(ext, "png") {
        "image/png"
    } else if str_equal(ext, "gif") {
        "image/gif"
    } else if str_equal(ext, "webp") {
        "image/webp"
    } else if str_equal(ext, "bmp") {
        "image/bmp"
    } else {
        "image/png"
    }
}

/// A `data:` URL of the given media type around base64 text.
pub fn data_url(mime: &str, encoded: &str) -> (url: String)
    ensures
        url@ == spec_data_url(mime@, encoded@),
{
    let mut url = String::from_str("data:");
    url.append(mime);
    url.append(";base64,");
    url.append(encoded);
    url
}

/// The `data:` URL of an image: the contents of the file, `data`, in base64,
/// under the media type that goes with the extension of `path`, whatever its
/// case.
pub fn image_data_url(path: &str, data: &[u8]) -> (url: String)
    requires
        base64_len(data@.len()) <= usize::MAX,
    ensures
        url@ == spec_data_url(mime_of(lowercase(extension(path@))), base64_standard(data@)),
{
    let ext = to_lowercase(extension_of(path));
    let mime = mime_for_extension(ext.as_str());
    let encoded = encode_base64(data);
    data_url(mime, encoded.as_str())
}

} // verus!
