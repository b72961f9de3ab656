//! A preview of an image, as a `data:` URL that the interface can show.

use base64::Engine;
use vstd::prelude::*;
use vstd::string::StringExecFns;
use crate::paths::{extension_of, file_name, path_file_name, split_file_name};
use crate::text::{lowercase_of, str_equal, to_lowercase};

verus! {

/// The base64 text of `data`: what the `STANDARD` engine of the `base64` crate
/// (the alphabet of RFC 4648 with padding) returns for it.
pub uninterp spec fn base64_standard(data: Seq<u8>) -> Seq<char>;

/// Whether `len` bytes can be base64-encoded without the length of the result
/// leaving the range of `usize`.
pub open spec fn encodable_len(len: nat) -> bool {
    len / 3 < usize::MAX / 4
}

/// Calls `encode` of `base64::engine::general_purpose::STANDARD`. The contract
/// only gives the result its name: the same bytes always give the same text.
/// The function panics if the length of the result does not fit into a
/// `usize`; `requires` leaves such input out.
#[verifier::external_body]
pub(crate) fn base64_encode(data: &[u8]) -> (encoded: String)
    requires
        encodable_len(data@.len()),
    ensures
        encoded@ == base64_standard(data@),
{
    base64::engine::general_purpose::STANDARD.encode(data)
}

/// The media type for a lower-case file extension: PNG and WebP are named,
/// everything else is taken for JPEG.
pub open spec fn mime_of(lower_extension: Seq<char>) -> Seq<char> {
    if lower_extension == "png"@ {
        "image/png"@
    } else if lower_extension == "webp"@ {
        "image/webp"@
    } else {
        "image/jpeg"@
    }
}

/// The extension that decides the media type of `path`: the one of its file
/// name, or `jpg` if there is none.
pub open spec fn preview_extension(path: Seq<char>) -> Seq<char> {
    match path_file_name(path) {
        Some(name) => match extension_of(name) {
            Some(extension) => extension,
            None => "jpg"@,
        },
        None => "jpg"@,
    }
}

/// The `data:` URL of a payload.
pub open spec fn data_url(mime: Seq<char>, encoded: Seq<char>) -> Seq<char> {
    "data:"@ + mime + ";base64,"@ + encoded
}

/// The preview of the image at `path` with the contents `data`.
pub open spec fn preview_of(path: Seq<char>, data: Seq<u8>) -> Seq<char> {
    data_url(mime_of(lowercase_of(preview_extension(path))), base64_standard(data))
}

/// Names the media type for a lower-case file extension.
pub fn mime_for_extension(lower_extension: &str) -> (mime: &'static str)
    ensures
        mime@ == mime_of(lower_extension@),
{
    if str_equal(lower_extension, "png") {
        "image/png"
    } else if str_equal(lower_extension, "webp") {
        "image/webp"
    } else {
        "image/jpeg"
    }
}

fn extension_for_preview(path: &str) -> (extension: String)
    ensures
        extension@ == preview_extension(path@),
{
    match file_name(path) {
        Some(name) => match split_file_name(name.as_str()).extension {
            Some(extension) => extension,
            None => String::from_str("jpg"),
        },
        None => String::from_str("jpg"),
    }
}

/// Makes the preview of the image at `path` from its contents. There is no
/// preview for contents so long that their base64 text could not be held.
pub fn image_preview(path: &str, data: &[u8]) -> (preview: Option<String>)
    ensures
        preview is Some <==> encodable_len(data@.len()),
        preview is Some ==> preview->0@ == preview_of(path@, data@),
{
    if data.len() / 3 >= usize::MAX / 4 {
        return None;
    }
    let extension = to_lowercase(extension_for_preview(path).as_str());
    let mut preview = String::from_str("data:");
    preview.append(mime_for_extension(extension.as_str()));
    preview.append(";base64,");
    preview.append(base64_encode(data).as_str());
    Some(preview)
}

} // verus!
