use vstd::prelude::*;
use vstd::string::*;

use crate::strutil::ends_with_str;
use crate::strutil::find_first_char;
use crate::strutil::first_index_of;
use crate::strutil::has_prefix;
use crate::strutil::has_suffix;
use crate::strutil::lemma_first_index_of;
use crate::strutil::starts_with_str;
use crate::trusted;
use crate::trusted::base64_standard_decode;

verus! {

/// The image bytes a data URL carries: present exactly when the text
/// starts with an image data-URL scheme, holds a comma, and what follows
/// the first comma decodes as standard base64.
pub open spec fn data_url_payload(t: Seq<char>) -> Option<Seq<u8>> {
    if !has_prefix(t, "data:image/"@) {
        None
    } else if first_index_of(t, ',') == -1 {
        None
    } else {
        base64_standard_decode(t.subrange(first_index_of(t, ',') + 1, t.len() as int))
    }
}

/// Clipboard text that plausibly names an image file: short, with one
/// of the recognised image extensions.
pub open spec fn looks_like_image_path(t: Seq<char>, byte_len: int) -> bool {
    &&& byte_len < 1000
    &&& (has_suffix(t, ".png"@) || has_suffix(t, ".jpg"@) || has_suffix(t, ".jpeg"@)
        || has_suffix(t, ".gif"@) || has_suffix(t, ".webp"@))
}

/// Decode the image bytes of a data URL found in clipboard text.
pub fn parse_data_url(text: &str) -> (r: Option<Vec<u8>>)
    ensures
        match r {
            Some(b) => data_url_payload(text@) matches Some(d) && b@ == d,
            None => data_url_payload(text@) is None,
        },
{
    if !starts_with_str(text, "data:image/") {
        return None;
    }
    proof {
        lemma_first_index_of(text@, ',');
    }
    let t_len: usize = text.unicode_len();
    match find_first_char(text, ',') {
        Some(i) => {
            let tail = text.substring_char(i + 1, t_len);
            trusted::decode_base64(tail)
        },
        None => None,
    }
}

/// Whether clipboard text plausibly names an image file on disk.
pub fn is_image_path_candidate(text: &str) -> (r: bool)
    ensures
        r == looks_like_image_path(text@, text.spec_bytes().len() as int),
{
    text.as_bytes().len() < 1000 && (ends_with_str(text, ".png") || ends_with_str(text, ".jpg")
        || ends_with_str(text, ".jpeg") || ends_with_str(text, ".gif") || ends_with_str(
        text,
        ".webp",
    ))
}

} // verus!
