//! Where uploaded files are stored, and the names of pending uploads.

use crate::text::{chars_of, push_decimal, decimal};
use vstd::prelude::*;
use vstd::string::StringExecFns;

verus! {

/// Directory under which pending uploads are buffered before they are sent.
pub const PARTIAL_UPLOAD_FILES_DIR: &'static str = "app/.partial_upload_files";

/// Whether a stored path is absolute, and so stands by itself.
pub open spec fn is_absolute(path: Seq<char>) -> bool {
    path.len() > 0 && path[0] == '/'
}

/// `path` placed under the directory `root`, which ends with a separator; an
/// absolute `path` replaces the directory.
pub open spec fn under(root: Seq<char>, path: Seq<char>) -> Seq<char> {
    if is_absolute(path) {
        path
    } else {
        root + path
    }
}

fn join_under(root: &str, store_path: &str) -> (r: String)
    ensures
        r@ == under(root@, store_path@),
{
    let chars = chars_of(store_path);
    if chars.len() > 0 && chars[0] == '/' {
        String::from_str(store_path)
    } else {
        String::from_str(root).concat(store_path)
    }
}

/// The path of a full-size asset in the storage bucket.
pub fn get_full_file_path(store_path: &str) -> (r: String)
    ensures
        r@ == under("/blog_upload/"@, store_path@),
{
    join_under("/blog_upload/", store_path)
}

/// The path of an asset's thumbnail in the storage bucket.
pub fn get_thumb_file_path(store_path: &str) -> (r: String)
    ensures
        r@ == under("/blog_upload_thumb/"@, store_path@),
{
    join_under("/blog_upload_thumb/", store_path)
}

/// The name of the pending-upload file with index `index`.
pub open spec fn uploading_file_path(index: nat) -> Seq<char> {
    "app/.partial_upload_files/uploading"@ + decimal(index) + ".uploading"@
}

/// The next pending-upload file name; the index is taken and advanced, so
/// that names are never reused.
pub fn get_next_uploading_file_path(next_file_index: &mut usize) -> (r: String)
    requires
        *old(next_file_index) < usize::MAX,
    ensures
        r@ == uploading_file_path(*old(next_file_index) as nat),
        *final(next_file_index) == *old(next_file_index) + 1,
{
    let mut r = String::from_str("app/.partial_upload_files/uploading");
    push_decimal(&mut r, *next_file_index);
    r.append(".uploading");
    *next_file_index = *next_file_index + 1;
    r
}

} // verus!
