//! The analysis pipeline's fixed names and the small decisions around it.
use vstd::prelude::*;
use crate::config::RoleKind;
use crate::db::models::AnalysisArtifact;
use crate::text::{append_joined, append_str, join, same_text, string_from_chars, views};

verus! {

/// The version written by the current analysis pipeline.
pub const PIPELINE_VERSION: &'static str = "analysis-pipeline-v2";

/// Appended to a retried stage so that the model answers with bare JSON.
pub const RETRY_JSON_REMINDER: &'static str = "\n\nIMPORTANT: Return ONLY valid JSON. Do NOT wrap in markdown code fences. Output the raw JSON object only.";

/// The artifact stage of the input context.
pub const STAGE_INPUT_CONTEXT: &'static str = "input_context";
/// The artifact stage of the raw legacy combined reply.
pub const STAGE_LEGACY_COMBINED_RAW: &'static str = "legacy_combined_raw";
/// The artifact stage of the parsed legacy combined reply.
pub const STAGE_LEGACY_COMBINED_PARSED: &'static str = "legacy_combined_parsed";
/// The schema version of every artifact written.
pub const ARTIFACT_SCHEMA_VERSION: &'static str = "v1";

/// The stages of the multi-stage pipeline, in the order they run.
#[derive(Debug, Clone, Copy, PartialEq, Eq, Structural)]
pub enum PipelineStage {
    VisionRecognition,
    StructuredExtraction,
    PedagogicalAnalysis,
}

/// The stage after `s`, if any.
pub open spec fn next_stage(s: PipelineStage) -> Option<PipelineStage> {
    match s {
        PipelineStage::VisionRecognition => Some(PipelineStage::StructuredExtraction),
        PipelineStage::StructuredExtraction => Some(PipelineStage::PedagogicalAnalysis),
        PipelineStage::PedagogicalAnalysis => None,
    }
}

/// The position of a stage in the pipeline.
pub open spec fn stage_index(s: PipelineStage) -> int {
    match s {
        PipelineStage::VisionRecognition => 0,
        PipelineStage::StructuredExtraction => 1,
        PipelineStage::PedagogicalAnalysis => 2,
    }
}

/// The artifact stage of a stage's raw replies.
pub open spec fn raw_stage_name(s: PipelineStage) -> Seq<char> {
    match s {
        PipelineStage::VisionRecognition => "vision_recognition_raw"@,
        PipelineStage::StructuredExtraction => "structured_extraction_raw"@,
        PipelineStage::PedagogicalAnalysis => "pedagogical_analysis_raw"@,
    }
}

/// The artifact stage of a stage's parsed result.
pub open spec fn parsed_stage_name(s: PipelineStage) -> Seq<char> {
    match s {
        PipelineStage::VisionRecognition => "vision_recognition_parsed"@,
        PipelineStage::StructuredExtraction => "structured_extraction_parsed"@,
        PipelineStage::PedagogicalAnalysis => "pedagogical_analysis_parsed"@,
    }
}

/// The name of a stage in the model trace.
pub open spec fn trace_stage_name(s: PipelineStage) -> Seq<char> {
    match s {
        PipelineStage::VisionRecognition => "vision_recognition"@,
        PipelineStage::StructuredExtraction => "structured_extraction"@,
        PipelineStage::PedagogicalAnalysis => "pedagogical_analysis"@,
    }
}

/// The model role that answers a stage.
pub open spec fn stage_role(s: PipelineStage) -> RoleKind {
    match s {
        PipelineStage::VisionRecognition => RoleKind::VisionRecognition,
        PipelineStage::StructuredExtraction => RoleKind::StructuredExtraction,
        PipelineStage::PedagogicalAnalysis => RoleKind::PedagogicalAnalysis,
    }
}

impl PipelineStage {
    /// The first stage.
    pub fn first() -> (s: PipelineStage)
        ensures
            stage_index(s) == 0,
    {
        PipelineStage::VisionRecognition
    }

    /// The stage after this one, if any.
    pub fn next(self) -> (r: Option<PipelineStage>)
        ensures
            r == next_stage(self),
    {
        match self {
            PipelineStage::VisionRecognition => Some(PipelineStage::StructuredExtraction),
            PipelineStage::StructuredExtraction => Some(PipelineStage::PedagogicalAnalysis),
            PipelineStage::PedagogicalAnalysis => None,
        }
    }

    /// The artifact stage under which this stage's raw replies are kept.
    pub fn raw_artifact_stage(self) -> (r: &'static str)
        ensures
            r@ == raw_stage_name(self),
    {
        match self {
            PipelineStage::VisionRecognition => "vision_recognition_raw",
            PipelineStage::StructuredExtraction => "structured_extraction_raw",
            PipelineStage::PedagogicalAnalysis => "pedagogical_analysis_raw",
        }
    }

    /// The artifact stage under which this stage's parsed result is kept.
    pub fn parsed_artifact_stage(self) -> (r: &'static str)
        ensures
            r@ == parsed_stage_name(self),
    {
        match self {
            PipelineStage::VisionRecognition => "vision_recognition_parsed",
            PipelineStage::StructuredExtraction => "structured_extraction_parsed",
            PipelineStage::PedagogicalAnalysis => "pedagogical_analysis_parsed",
        }
    }

    /// This stage's name in the model trace.
    pub fn trace_name(self) -> (r: &'static str)
        ensures
            r@ == trace_stage_name(self),
    {
        match self {
            PipelineStage::VisionRecognition => "vision_recognition",
            PipelineStage::StructuredExtraction => "structured_extraction",
            PipelineStage::PedagogicalAnalysis => "pedagogical_analysis",
        }
    }

    /// The model role that answers this stage.
    pub fn role(self) -> (r: RoleKind)
        ensures
            r == stage_role(self),
    {
        match self {
            PipelineStage::VisionRecognition => RoleKind::VisionRecognition,
            PipelineStage::StructuredExtraction => RoleKind::StructuredExtraction,
            PipelineStage::PedagogicalAnalysis => RoleKind::PedagogicalAnalysis,
        }
    }
}

/// The raw artifact kept for one attempt of a stage: its number, and whether
/// the artifact says it belongs to a retry for a parse failure.
#[derive(Debug, Clone, Copy, PartialEq, Eq, Structural)]
pub struct AttemptRecord {
    pub attempt: u32,
    pub retried_for_parse_failure: bool,
}

/// What the pipeline does once a stage's reply was, or was not, parsed.
#[derive(Debug, Clone, Copy, PartialEq, Eq, Structural)]
pub enum PipelineAction {
    /// Ask the same stage again, with the JSON reminder appended.
    Retry(PipelineStage),
    /// Go on with this stage, from its first attempt.
    Advance(PipelineStage),
    /// Every stage has a parsed result.
    Finish,
    /// The stage failed twice: the multi-stage pipeline gives up, and the
    /// legacy combined analysis takes over.
    FallBack,
}

/// The next action after attempt `attempt` of `stage`.
pub open spec fn pipeline_action(stage: PipelineStage, attempt: u32, parsed: bool) -> PipelineAction {
    if parsed {
        match next_stage(stage) {
            Some(n) => PipelineAction::Advance(n),
            None => PipelineAction::Finish,
        }
    } else if attempt == 1 {
        PipelineAction::Retry(stage)
    } else {
        PipelineAction::FallBack
    }
}

/// The raw artifact kept for an attempt: none for a failed second attempt,
/// which ends the pipeline before anything is kept.
pub open spec fn attempt_record(attempt: u32, parsed: bool) -> Option<AttemptRecord> {
    if attempt == 1 {
        Some(AttemptRecord { attempt: 1, retried_for_parse_failure: !parsed })
    } else if parsed {
        Some(AttemptRecord { attempt: 2, retried_for_parse_failure: true })
    } else {
        None
    }
}

/// One step of the multi-stage pipeline: after attempt `attempt` (the first
/// or the retry) of `stage`, whose reply was or was not parsed, the raw
/// artifact to keep and what to do next.
pub fn pipeline_step(stage: PipelineStage, attempt: u32, parsed: bool) -> (r: (
    Option<AttemptRecord>,
    PipelineAction,
))
    requires
        attempt == 1 || attempt == 2,
    ensures
        r.0 == attempt_record(attempt, parsed),
        r.1 == pipeline_action(stage, attempt, parsed),
{
    let record = if attempt == 1 {
        Some(AttemptRecord { attempt: 1, retried_for_parse_failure: !parsed })
    } else if parsed {
        Some(AttemptRecord { attempt: 2, retried_for_parse_failure: true })
    } else {
        None
    };
    let action = if parsed {
        match stage.next() {
            Some(n) => PipelineAction::Advance(n),
            None => PipelineAction::Finish,
        }
    } else if attempt == 1 {
        PipelineAction::Retry(stage)
    } else {
        PipelineAction::FallBack
    };
    (record, action)
}

/// The text appended to a stage's prompt: nothing on the first attempt, the
/// JSON reminder on the retry.
pub fn prompt_reminder(attempt: u32) -> (r: Option<&'static str>)
    ensures
        attempt == 1 ==> r is None,
        attempt != 1 ==> r == Some(RETRY_JSON_REMINDER),
{
    if attempt == 1 {
        None
    } else {
        Some(RETRY_JSON_REMINDER)
    }
}

/// How far the pipeline has come: two calls per stage at most.
pub open spec fn pipeline_progress(stage: PipelineStage, attempt: u32) -> int {
    2 * stage_index(stage) + attempt
}

/// Every step of the pipeline either ends it or moves it forward, to a
/// first attempt of the next stage or to the retry of the same stage; so no
/// stage is asked more than twice and the pipeline makes at most six calls.
pub proof fn pipeline_moves_forward(stage: PipelineStage, attempt: u32, parsed: bool)
    requires
        attempt == 1 || attempt == 2,
    ensures
        pipeline_action(stage, attempt, parsed) matches PipelineAction::Retry(s) ==> s == stage
            && attempt == 1 && pipeline_progress(s, 2) == pipeline_progress(stage, attempt) + 1,
        pipeline_action(stage, attempt, parsed) matches PipelineAction::Advance(s) ==> parsed
            && stage_index(s) == stage_index(stage) + 1 && pipeline_progress(s, 1)
            > pipeline_progress(stage, attempt),
        pipeline_action(stage, attempt, parsed) is Finish ==> parsed && stage
            == PipelineStage::PedagogicalAnalysis,
        pipeline_action(stage, attempt, parsed) is FallBack ==> !parsed && attempt == 2,
        0 < pipeline_progress(stage, attempt) <= 6,
{
}

/// What re-analysing a stored image gives for an existing record.
#[derive(Debug, Clone)]
pub struct ReanalysisResult {
    pub question_markdown_clean: Option<String>,
    pub question_structure_json: Option<String>,
    pub student_answer_text: Option<String>,
    pub teacher_marks_json: Option<String>,
    pub question_type: Option<String>,
    pub difficulty: Option<String>,
    pub error_type: Option<String>,
    pub error_subtype: Option<String>,
    pub root_cause_code: Option<String>,
    pub confidence_json: Option<String>,
    pub pipeline_version: String,
    pub model_trace_json: Option<String>,
    /// Artifacts for the caller to store; the record already exists.
    pub artifacts: Vec<AnalysisArtifact>,
}

/// The characters after the last `/` of `p` (all of `p` when it has none).
pub open spec fn tail_segment(p: Seq<char>) -> Seq<char>
    decreases p.len(),
{
    if p.len() == 0 || p.last() == '/' {
        seq![]
    } else {
        tail_segment(p.drop_last()).push(p.last())
    }
}

/// The file name of a Unix path as `Path::file_name` finds it: the last
/// component, with trailing `/` and `.` components ignored; none when that
/// component is `..` or there is none.
pub open spec fn file_name_of(p: Seq<char>) -> Option<Seq<char>>
    decreases p.len(),
{
    if p.len() == 0 {
        None
    } else if p.last() == '/' {
        file_name_of(p.drop_last())
    } else if tail_segment(p) == "."@ {
        file_name_of(p.drop_last())
    } else if tail_segment(p) == ".."@ {
        None
    } else {
        Some(tail_segment(p))
    }
}

/// The index of the last `.` among the first `i` characters of `n`, or -1.
pub open spec fn last_dot(n: Seq<char>, i: int) -> int
    decreases i,
{
    if i <= 0 {
        -1
    } else if n[i - 1] == '.' {
        i - 1
    } else {
        last_dot(n, i - 1)
    }
}

/// The extension of a file name: what follows its last `.`, unless that dot
/// is the first character or there is none.
pub open spec fn name_extension(n: Seq<char>) -> Option<Seq<char>> {
    let k = last_dot(n, n.len() as int);
    if k <= 0 {
        None
    } else {
        Some(n.subrange(k + 1, n.len() as int))
    }
}

/// The extension `std::path::Path::extension` finds in a Unix path, as text.
pub open spec fn path_extension(path: Seq<char>) -> Option<Seq<char>> {
    match file_name_of(path) {
        Some(n) => name_extension(n),
        None => None,
    }
}

/// Calls `Path::extension` on `path` and hands back the extension when it is
/// valid UTF-8 (a `&str` always is); the contract states the result by the Unix
/// path rules of `Path::file_name` and `Path::extension`.
#[verifier::external_body]
pub(crate) fn extension_of(path: &str) -> (r: Option<String>)
    ensures
        r matches Some(e) ==> path_extension(path@) == Some(e@),
        r is None ==> path_extension(path@) is None,
{
    std::path::Path::new(path).extension().and_then(|e| e.to_str()).map(|e| e.to_owned())
}

/// The media type of an image file with this extension; PNG when unknown.
pub open spec fn media_type_of(ext: Option<Seq<char>>) -> Seq<char> {
    match ext {
        Some(e) => if e == "jpg"@ || e == "jpeg"@ {
            "image/jpeg"@
        } else if e == "png"@ {
            "image/png"@
        } else if e == "gif"@ {
            "image/gif"@
        } else if e == "webp"@ {
            "image/webp"@
        } else {
            "image/png"@
        },
        None => "image/png"@,
    }
}

/// The media type of an image file, by its extension.
pub fn detect_media_type(path: &str) -> (r: &'static str)
    ensures
        r@ == media_type_of(path_extension(path@)),
{
    match extension_of(path) {
        Some(e) => {
            let e = e.as_str();
            if same_text(e, "jpg") || same_text(e, "jpeg") {
                "image/jpeg"
            } else if same_text(e, "png") {
                "image/png"
            } else if same_text(e, "gif") {
                "image/gif"
            } else if same_text(e, "webp") {
                "image/webp"
            } else {
                "image/png"
            }
        },
        None => "image/png",
    }
}

/// Whether a record was already analysed by the current pipeline: it has a
/// question type, an error type and a difficulty, and the current version.
pub fn analysed_by_current_pipeline(
    question_type: &Option<String>,
    error_type: &Option<String>,
    difficulty: &Option<String>,
    pipeline_version: &Option<String>,
) -> (b: bool)
    ensures
        b == (question_type is Some && error_type is Some && difficulty is Some && (
        pipeline_version matches Some(v) && v@ == PIPELINE_VERSION@)),
{
    question_type.is_some() && error_type.is_some() && difficulty.is_some() && match pipeline_version {
        Some(v) => same_text(v.as_str(), PIPELINE_VERSION),
        None => false,
    }
}

/// The text embedded for an analysed error: its subject, knowledge points,
/// question, reason and suggestions, one per line.
pub open spec fn embedding_text_of(
    subject: Seq<char>,
    classification: Seq<Seq<char>>,
    question: Seq<char>,
    reason: Seq<char>,
    suggestions: Seq<char>,
) -> Seq<char> {
    "科目: "@ + subject + "\n知识点: "@ + join(classification, "、"@) + "\n原题: "@ + question
        + "\n原因: "@ + reason + "\n建议: "@ + suggestions
}

/// Writes `embedding_text_of`.
pub fn embedding_text(
    subject: &str,
    classification: &Vec<String>,
    question: &str,
    reason: &str,
    suggestions: &str,
) -> (r: String)
    ensures
        r@ == embedding_text_of(subject@, views(classification@), question@, reason@, suggestions@),
{
    let mut out: Vec<char> = Vec::new();
    append_str(&mut out, "科目: ");
    append_str(&mut out, subject);
    append_str(&mut out, "\n知识点: ");
    append_joined(&mut out, classification, "、");
    append_str(&mut out, "\n原题: ");
    append_str(&mut out, question);
    append_str(&mut out, "\n原因: ");
    append_str(&mut out, reason);
    append_str(&mut out, "\n建议: ");
    append_str(&mut out, suggestions);
    string_from_chars(out.as_slice())
}

/// The grade level of a new record: the request's, else the default.
pub fn record_grade_level(requested: &Option<String>, default_grade: &str) -> (r: String)
    ensures
        requested matches Some(g) ==> r@ == g@,
        requested is None ==> r@ == default_grade@,
{
    match requested {
        Some(g) => g.clone(),
        None => default_grade.to_owned(),
    }
}

} // verus!
