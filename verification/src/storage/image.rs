//! Where stored images live.
use vstd::prelude::*;
use crate::text::{append_str, chars_of, string_from_chars};
use crate::analysis::analyzer::{extension_of, path_extension};

verus! {

/// `relative` under `base`, as a Unix path join: an absolute `relative`
/// replaces `base`; otherwise a `/` separates them unless `base` is empty or
/// already ends with one.
pub open spec fn joined_path(base: Seq<char>, relative: Seq<char>) -> Seq<char> {
    if relative.len() > 0 && relative[0] == '/' {
        relative
    } else if base.len() == 0 || base.last() == '/' {
        base + relative
    } else {
        base + "/"@ + relative
    }
}

/// Joins `relative` onto `base`.
pub fn join_path(base: &str, relative: &str) -> (r: String)
    ensures
        r@ == joined_path(base@, relative@),
{
    let b = chars_of(base);
    let rel = chars_of(relative);
    if rel.len() > 0 && rel[0] == '/' {
        return string_from_chars(rel.as_slice());
    }
    let mut out = b;
    if !(out.len() == 0 || out[out.len() - 1] == '/') {
        append_str(&mut out, "/");
    }
    out.extend_from_slice(rel.as_slice());
    string_from_chars(out.as_slice())
}

/// The name under which a file is stored: its id, a dot, and the extension.
pub open spec fn stored_name(id: Seq<char>, extension: Seq<char>) -> Seq<char> {
    id + "."@ + extension
}

/// The name of a stored file with this id and extension.
pub fn stored_file_name(id: &str, extension: &str) -> (r: String)
    ensures
        r@ == stored_name(id@, extension@),
{
    let mut out = chars_of(id);
    append_str(&mut out, ".");
    append_str(&mut out, extension);
    string_from_chars(out.as_slice())
}

/// The extension a stored copy of an image keeps: the source's, or `png`
/// when the source has none.
pub open spec fn kept_extension(ext: Option<Seq<char>>) -> Seq<char> {
    match ext {
        Some(e) => e,
        None => "png"@,
    }
}

/// The name under which a copy of the image at `source_path` is stored with
/// this id: the id with the source's extension, `png` when it has none.
pub fn stored_image_name(id: &str, source_path: &str) -> (r: String)
    ensures
        r@ == stored_name(id@, kept_extension(path_extension(source_path@))),
{
    match extension_of(source_path) {
        Some(e) => stored_file_name(id, e.as_str()),
        None => stored_file_name(id, "png"),
    }
}

/// The directory that holds stored images.
#[derive(Debug, Clone)]
pub struct ImageStorage {
    base_dir: String,
}

impl ImageStorage {
    /// The storage under `base_dir`.
    pub fn new(base_dir: String) -> (s: ImageStorage)
        ensures
            s.base_dir() == base_dir@,
    {
        ImageStorage { base_dir }
    }

    /// The storage's directory.
    pub closed spec fn base_dir(&self) -> Seq<char> {
        self.base_dir@
    }

    /// The storage's directory.
    pub fn dir(&self) -> (r: &str)
        ensures
            r@ == self.base_dir(),
    {
        self.base_dir.as_str()
    }

    /// The full path of a stored image.
    pub fn full_path(&self, relative_path: &str) -> (r: String)
        ensures
            r@ == joined_path(self.base_dir(), relative_path@),
    {
        join_path(self.base_dir.as_str(), relative_path)
    }
}

} // verus!
