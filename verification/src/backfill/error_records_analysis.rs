//! The re-analysis backfill of error records that lack the structured fields
//! of the current pipeline.
use vstd::prelude::*;
use crate::analysis::analyzer::ReanalysisResult;
use crate::db::models::{AnalysisArtifact, AnalysisBackfillFields};

verus! {

/// Records fetched per batch; each one costs several model calls.
pub const ANALYSIS_BATCH_SIZE: u32 = 10;

/// The structured fields that a re-analysis writes back, and the artifacts to
/// store beside them; the record's legacy fields are left as they are.
pub fn backfill_fields(result: ReanalysisResult) -> (r: (AnalysisBackfillFields, Vec<AnalysisArtifact>))
    ensures
        r.0.question_markdown_clean == result.question_markdown_clean,
        r.0.question_structure_json == result.question_structure_json,
        r.0.student_answer_text == result.student_answer_text,
        r.0.teacher_marks_json == result.teacher_marks_json,
        r.0.question_type == result.question_type,
        r.0.difficulty == result.difficulty,
        r.0.error_type == result.error_type,
        r.0.error_subtype == result.error_subtype,
        r.0.root_cause_code == result.root_cause_code,
        r.0.confidence_json == result.confidence_json,
        r.0.pipeline_version == result.pipeline_version,
        r.0.model_trace_json == result.model_trace_json,
        r.1 == result.artifacts,
{
    let fields = AnalysisBackfillFields {
        question_markdown_clean: result.question_markdown_clean,
        question_structure_json: result.question_structure_json,
        student_answer_text: result.student_answer_text,
        teacher_marks_json: result.teacher_marks_json,
        question_type: result.question_type,
        difficulty: result.difficulty,
        error_type: result.error_type,
        error_subtype: result.error_subtype,
        root_cause_code: result.root_cause_code,
        confidence_json: result.confidence_json,
        pipeline_version: result.pipeline_version,
        model_trace_json: result.model_trace_json,
    };
    (fields, result.artifacts)
}

} // verus!
