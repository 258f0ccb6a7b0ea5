//! The records the application stores and the requests it serves.
use vstd::prelude::*;

verus! {

/// The newest data version of stored records.
pub const DATA_VERSION_CURRENT: i64 = 2;

/// A knowledge-point tag of an error record.
#[derive(Debug, Clone)]
pub struct ClassificationTag {
    pub error_id: String,
    pub tag: String,
}

/// A periodic summary of a subject's errors.
#[derive(Debug, Clone)]
pub struct Summary {
    pub id: String,
    pub subject: String,
    /// week | month | semester
    pub period_type: String,
    pub period_start: i64,
    pub period_end: i64,
    pub common_reasons: String,
    pub common_suggestions: String,
    /// A JSON array of knowledge points.
    pub weak_points: String,
    pub detail: String,
    /// A JSON array of error record ids.
    pub related_error_ids: String,
    pub created_at: i64,
    pub data_version: i64,
    pub generator_version: Option<String>,
}

/// An infographic made for a summary.
#[derive(Debug, Clone)]
pub struct SummaryImage {
    pub id: String,
    pub summary_id: String,
    pub prompt: String,
    pub image_path: String,
    pub mime_type: String,
    pub created_at: i64,
    pub data_version: i64,
    pub generator_version: Option<String>,
}

/// A generated practice set.
#[derive(Debug, Clone)]
pub struct PracticeSet {
    pub id: String,
    pub summary_id: String,
    pub subject: String,
    pub requirements: Option<String>,
    /// A JSON array of questions.
    pub questions: String,
    pub pdf_path: Option<String>,
    pub created_at: i64,
    pub data_version: i64,
    pub generator_version: Option<String>,
}

/// A background job started through MCP.
#[derive(Debug, Clone)]
pub struct McpJob {
    pub id: String,
    pub kind: String,
    pub status: String,
    pub input_json: String,
    pub result_json: Option<String>,
    pub error_message: Option<String>,
    pub progress_message: Option<String>,
    pub created_at: i64,
    pub updated_at: i64,
    pub started_at: Option<i64>,
    pub completed_at: Option<i64>,
}

/// The output of one stage of the analysis pipeline.
#[derive(Debug, Clone)]
pub struct AnalysisArtifact {
    pub id: String,
    pub error_id: String,
    pub stage: String,
    pub schema_version: String,
    pub model_name: Option<String>,
    pub payload_json: String,
    pub created_at: i64,
}

/// A request to analyse a photographed error.
#[derive(Debug, Clone)]
pub struct AnalysisRequest {
    pub image_path: String,
    pub subject: Option<String>,
    pub grade_level: Option<String>,
    pub color_teacher: Option<String>,
    pub color_correction: Option<String>,
}

/// The period a summary covers.
#[derive(Debug, Clone, Copy, PartialEq, Eq, Structural)]
pub enum PeriodType {
    Week,
    Month,
    Semester,
}

/// A request for a practice set.
#[derive(Debug, Clone)]
pub struct PracticeRequest {
    pub summary_id: String,
    pub count: Option<u32>,
}

/// The state of a backfill run.
#[derive(Debug, Clone, Copy, PartialEq, Eq, Structural)]
pub enum BackfillRunStatus {
    Running,
    Completed,
    Failed,
}

/// The stored name of a backfill run status.
pub open spec fn run_status_name(s: BackfillRunStatus) -> Seq<char> {
    match s {
        BackfillRunStatus::Running => "running"@,
        BackfillRunStatus::Completed => "completed"@,
        BackfillRunStatus::Failed => "failed"@,
    }
}

impl BackfillRunStatus {
    /// The stored name of the status.
    pub fn as_str(&self) -> (s: &'static str)
        ensures
            s@ == run_status_name(*self),
    {
        match self {
            BackfillRunStatus::Running => "running",
            BackfillRunStatus::Completed => "completed",
            BackfillRunStatus::Failed => "failed",
        }
    }
}

/// A backfill run.
#[derive(Debug, Clone)]
pub struct BackfillRun {
    pub id: String,
    pub scope: String,
    pub status: String,
    pub dry_run: bool,
    pub started_at: i64,
    pub updated_at: i64,
    pub completed_at: Option<i64>,
    pub stats_json: Option<String>,
    pub error_message: Option<String>,
    pub last_table: Option<String>,
    pub last_row_id: Option<String>,
}

/// The counts of a backfill run.
#[derive(Debug, Clone, Copy, Default, PartialEq, Eq, Structural)]
pub struct BackfillStats {
    pub total_scanned: u64,
    pub upgraded: u64,
    pub skipped: u64,
    pub failed: u64,
}

/// The structured fields an analysis backfill writes.
#[derive(Debug, Clone)]
pub struct AnalysisBackfillFields {
    pub question_markdown_clean: Option<String>,
    pub question_structure_json: Option<String>,
    pub student_answer_text: Option<String>,
    pub teacher_marks_json: Option<String>,
    pub question_type: Option<String>,
    pub difficulty: Option<String>,
    pub error_type: Option<String>,
    pub error_subtype: Option<String>,
    pub root_cause_code: Option<String>,
    pub confidence_json: Option<String>,
    pub pipeline_version: String,
    pub model_trace_json: Option<String>,
}

} // verus!
