//! What deleting a summary removes, and what it reports.
use vstd::prelude::*;
use crate::storage::image::{join_path, joined_path};

verus! {

/// What deleting a summary and everything made from it removed.
#[derive(Debug, Clone)]
pub struct CascadeDeleteResult {
    pub summary_id: String,
    pub deleted_summary_images: u64,
    pub deleted_practice_sets: u64,
    pub deleted_summary: bool,
    /// Generated image files actually removed from disk.
    pub deleted_generated_image_files: u64,
}

/// The files of a summary's generated images: each stored path under the
/// generated image directory. Practice PDFs are not among them: they may lie
/// anywhere the user chose.
pub fn generated_image_files(dir: &str, image_paths: &Vec<String>) -> (r: Vec<String>)
    ensures
        r@.len() == image_paths@.len(),
        forall|i: int| 0 <= i < r@.len() ==> (#[trigger] r@[i])@ == joined_path(dir@, image_paths@[i]@),
{
    let n = image_paths.len();
    let mut out: Vec<String> = Vec::new();
    let mut i: usize = 0;
    while i < n
        invariant
            n == image_paths@.len(),
            i <= n,
            out@.len() == i,
            forall|k: int| 0 <= k < i ==> (#[trigger] out@[k])@ == joined_path(dir@, image_paths@[k]@),
        decreases n - i,
    {
        out.push(join_path(dir, image_paths[i].as_str()));
        i = i + 1;
    }
    out
}

/// The report of a finished cascade delete.
pub fn cascade_delete_result(
    summary_id: &str,
    deleted_summary_images: u64,
    deleted_practice_sets: u64,
    deleted_generated_image_files: u64,
) -> (r: CascadeDeleteResult)
    ensures
        r.summary_id@ == summary_id@,
        r.deleted_summary_images == deleted_summary_images,
        r.deleted_practice_sets == deleted_practice_sets,
        r.deleted_summary,
        r.deleted_generated_image_files == deleted_generated_image_files,
{
    CascadeDeleteResult {
        summary_id: summary_id.to_owned(),
        deleted_summary_images,
        deleted_practice_sets,
        deleted_summary: true,
        deleted_generated_image_files,
    }
}

/// The error for a summary that does not exist.
pub fn summary_not_found(summary_id: &str) -> (m: String)
    ensures
        m@ == "总结记录不存在: "@ + summary_id@,
{
    let mut out: Vec<char> = Vec::new();
    crate::text::append_str(&mut out, "总结记录不存在: ");
    crate::text::append_str(&mut out, summary_id);
    crate::text::string_from_chars(out.as_slice())
}

} // verus!
