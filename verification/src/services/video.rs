//! Where an uploaded video is kept.

use crate::services::session::fresh_uuid;
use crate::text::join2;
use vstd::prelude::*;
use vstd::string::*;
use vstd::utf8::*;

verus! {

/// The path of an upload: the upload directory, a unique prefix, a hyphen,
/// and the cleaned name.
pub open spec fn upload_path_of(unique: Seq<char>, name: Seq<char>) -> Seq<char> {
    "uploads/"@ + unique + "-"@ + name
}

/// The longest file name kept, in bytes.
pub const MAX_NAME_BYTES: usize = 255;

/// A character that no file name may hold: a path separator, one of the
/// other characters that file systems reserve, or a control character.
pub open spec fn forbidden_in_names(c: char) -> bool {
    ||| c == '/'
    ||| c == '\\'
    ||| c == '?'
    ||| c == '<'
    ||| c == '>'
    ||| c == ':'
    ||| c == '*'
    ||| c == '|'
    ||| c == '"'
    ||| c as u32 <= 0x1f
    ||| 0x80 <= c as u32 <= 0x9f
}

/// A name that holds no forbidden character.
pub open spec fn clean_name(name: Seq<char>) -> bool {
    forall|i: int| 0 <= i < name.len() ==> !forbidden_in_names(#[trigger] name[i])
}

/// `to` is `from` with some of its characters taken out, the rest in
/// their order.
pub open spec fn thinned(from: Seq<char>, to: Seq<char>) -> bool
    decreases from.len(),
{
    if to.len() == 0 {
        true
    } else if from.len() == 0 {
        false
    } else if from.last() == to.last() {
        thinned(from.drop_last(), to.drop_last())
    } else {
        thinned(from.drop_last(), to)
    }
}

/// The name that an upload asks for: the one it gives, or "video.mp4".
pub open spec fn requested_name(filename: Option<Seq<char>>) -> Seq<char> {
    match filename {
        Some(name) => name,
        None => "video.mp4"@,
    }
}

pub open spec fn filename_view(filename: Option<&str>) -> Option<Seq<char>> {
    match filename {
        Some(name) => Some(name@),
        None => None,
    }
}

/// Calls `sanitize_filename::sanitize`.
///
/// Which names it changes beyond this depends on the platform the crate
/// was built for, so the result gets no name. Trusted is what holds on
/// every platform: it only takes characters out; it takes out every
/// forbidden one; and it cuts what is left to at most 255 bytes.
#[verifier::external_body]
fn sanitize(name: &str) -> (clean: String)
    ensures
        thinned(name@, clean@),
        clean_name(clean@),
        encode_utf8(clean@).len() <= MAX_NAME_BYTES,
{
    sanitize_filename::sanitize(name)
}

/// The cleaned file name of an upload; an upload that names no file is
/// taken to be "video.mp4".
///
/// The result is the requested name with characters taken out, among them
/// every path separator, so that a path made with it stays in the upload
/// directory; and it is at most 255 bytes long.
pub fn upload_name(filename: Option<&str>) -> (name: String)
    ensures
        thinned(requested_name(filename_view(filename)), name@),
        clean_name(name@),
        encode_utf8(name@).len() <= MAX_NAME_BYTES,
{
    match filename {
        Some(name) => sanitize(name),
        None => sanitize("video.mp4"),
    }
}

/// The path of an upload with the given unique prefix and cleaned name.
pub fn stored_path(unique: &str, name: &str) -> (path: String)
    ensures
        path@ == upload_path_of(unique@, name@),
{
    let mut path = join2("uploads/", unique);
    path.append("-");
    path.append(name);
    path
}

/// A path for a new upload: under a prefix drawn at random, so that two
/// uploads of one name do not collide.
pub fn upload_path(filename: Option<&str>) -> (path: String)
    ensures
        exists|unique: Seq<char>, name: Seq<char>| path@ == #[trigger] upload_path_of(unique, name),
{
    let name = upload_name(filename);
    let unique = fresh_uuid();
    let path = stored_path(unique.as_str(), name.as_str());
    assert(path@ == upload_path_of(unique@, name@));
    path
}

} // verus!
