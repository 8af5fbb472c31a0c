//! Naming of stored images and the media type they are served with.

use vstd::prelude::*;
use vstd::string::*;
use crate::primitives::{is_reserved_file_char, sanitize_file_name, sanitized_name};

verus! {

fn same_text(a: &str, b: &str) -> (r: bool)
    ensures
        r == (a@ == b@),
{
    let n = a.unicode_len();
    if n != b.unicode_len() {
        return false;
    }
    let mut i: usize = 0;
    while i < n
        invariant
            i <= n,
            n == a@.len(),
            n == b@.len(),
            forall|j: int| 0 <= j < i ==> a@[j] == b@[j],
        decreases n - i,
    {
        if a.get_char(i) != b.get_char(i) {
            return false;
        }
        i = i + 1;
    }
    assert(a@ =~= b@);
    true
}

/// The media type of an image by its file extension.
pub open spec fn content_type_of(extension: Option<Seq<char>>) -> Seq<char> {
    match extension {
        Some(e) => if e == "jpg"@ || e == "jpeg"@ {
            "image/jpeg"@
        } else if e == "png"@ {
            "image/png"@
        } else if e == "gif"@ {
            "image/gif"@
        } else if e == "webp"@ {
            "image/webp"@
        } else {
            "application/octet-stream"@
        },
        None => "application/octet-stream"@,
    }
}

/// The media type that an image with the given file extension is served
/// with.
pub fn image_content_type(extension: Option<&str>) -> (r: &'static str)
    ensures
        r@ == content_type_of(
            match extension {
                Some(e) => Some(e@),
                None => None,
            },
        ),
{
    match extension {
        Some(e) => {
            if same_text(e, "jpg") || same_text(e, "jpeg") {
                "image/jpeg"
            } else if same_text(e, "png") {
                "image/png"
            } else if same_text(e, "gif") {
                "image/gif"
            } else if same_text(e, "webp") {
                "image/webp"
            } else {
                "application/octet-stream"
            }
        },
        None => "application/octet-stream",
    }
}

/// The name before sanitizing: the stem, a dot and the extension, `jpg`
/// where there is none.
pub open spec fn raw_image_name(unique: Seq<char>, extension: Option<Seq<char>>) -> Seq<char> {
    unique + seq!['.'] + match extension {
        Some(e) => e,
        None => seq!['j', 'p', 'g'],
    }
}

/// The file name an upload is stored under: a unique stem, a dot and the
/// original extension (`jpg` where there is none), sanitized so that no
/// reserved character is left.
pub fn stored_image_name(unique: &str, extension: Option<&str>) -> (r: String)
    ensures
        r@ == sanitized_name(
            raw_image_name(
                unique@,
                match extension {
                    Some(e) => Some(e@),
                    None => None,
                },
            ),
        ),
        forall|i: int| 0 <= i < r@.len() ==> !is_reserved_file_char(#[trigger] r@[i]),
{
    proof {
        reveal_strlit(".");
        reveal_strlit("jpg");
    }
    let mut name = String::from_str(unique);
    name.append(".");
    match extension {
        Some(e) => name.append(e),
        None => name.append("jpg"),
    }
    assert(name@ =~= raw_image_name(
        unique@,
        match extension {
            Some(e) => Some(e@),
            None => None,
        },
    ));
    sanitize_file_name(name.as_str())
}

} // verus!
