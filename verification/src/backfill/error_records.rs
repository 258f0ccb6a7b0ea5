//! The data-version upgrade of error records.
use vstd::prelude::*;
use crate::text::{chars_of, string_from_chars, trim, trim_chars};

verus! {

/// The newest data version of error records: v2 fills in the pipeline version
/// and the clean question of records written before they existed.
pub const LATEST_ERROR_RECORDS_DATA_VERSION: i64 = 2;

/// Records fetched per batch.
pub const BATCH_SIZE: u32 = 100;

/// Whether a record of this data version is upgraded: only records below the
/// newest version are.
pub open spec fn upgrade_needed(data_version: int) -> bool {
    data_version < LATEST_ERROR_RECORDS_DATA_VERSION
}

/// Whether a record of this data version needs upgrading.
pub fn needs_upgrade(data_version: i64) -> (b: bool)
    ensures
        b == upgrade_needed(data_version as int),
{
    data_version < LATEST_ERROR_RECORDS_DATA_VERSION
}

/// An upgrade writes the newest version, so a second run skips every record
/// the first one upgraded, and no record is ever taken below its version.
pub proof fn upgrades_are_idempotent(data_version: int)
    ensures
        !upgrade_needed(LATEST_ERROR_RECORDS_DATA_VERSION as int),
        upgrade_needed(data_version) ==> data_version < LATEST_ERROR_RECORDS_DATA_VERSION,
{
}

/// What the v1 to v2 upgrade writes.
#[derive(Debug, Clone)]
pub struct UpgradeV1ToV2Result {
    /// The pipeline version to write, when the record had none.
    pub new_pipeline_version: Option<String>,
    /// The clean question to write, when the record had none.
    pub new_question_markdown_clean: Option<String>,
    /// Whether the clean question is filled from the original question.
    pub backfilled_question_markdown: bool,
}

/// Whether an optional field is missing or blank.
pub open spec fn blank_field(f: Option<String>) -> bool {
    match f {
        None => true,
        Some(s) => trim(s@).len() == 0,
    }
}

/// The v1 to v2 upgrade of a record's fields: a missing or blank pipeline
/// version becomes "legacy-backfill-v1"; a missing or blank clean question is
/// filled with the trimmed original question, when that is not blank.
pub fn upgrade_v1_to_v2(
    pipeline_version: &Option<String>,
    question_markdown_clean: &Option<String>,
    original_question: &str,
) -> (r: UpgradeV1ToV2Result)
    ensures
        blank_field(*pipeline_version) ==> (r.new_pipeline_version matches Some(p) && p@
            == "legacy-backfill-v1"@),
        !blank_field(*pipeline_version) ==> r.new_pipeline_version is None,
        r.backfilled_question_markdown == (blank_field(*question_markdown_clean) && trim(
            original_question@,
        ).len() > 0),
        r.backfilled_question_markdown ==> (r.new_question_markdown_clean matches Some(q) && q@
            == trim(original_question@)),
        !r.backfilled_question_markdown ==> r.new_question_markdown_clean is None,
{
    let pipeline_blank = match pipeline_version {
        None => true,
        Some(s) => {
            let v = chars_of(s.as_str());
            trim_chars(v.as_slice()).len() == 0
        },
    };
    let new_pipeline_version = if pipeline_blank {
        Some("legacy-backfill-v1".to_owned())
    } else {
        None
    };
    let clean_blank = match question_markdown_clean {
        None => true,
        Some(s) => {
            let v = chars_of(s.as_str());
            trim_chars(v.as_slice()).len() == 0
        },
    };
    let (new_question_markdown_clean, backfilled) = if clean_blank {
        let ov = chars_of(original_question);
        let clean = trim_chars(ov.as_slice());
        if clean.len() == 0 {
            (None, false)
        } else {
            (Some(string_from_chars(clean.as_slice())), true)
        }
    } else {
        (None, false)
    };
    UpgradeV1ToV2Result {
        new_pipeline_version,
        new_question_markdown_clean,
        backfilled_question_markdown: backfilled,
    }
}

} // verus!
