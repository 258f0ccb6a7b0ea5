//! The parameters of the MCP tools, and the defaults the tools fill in.
use vstd::prelude::*;

verus! {

/// Analyse a photographed error.
#[derive(Debug, Clone)]
pub struct AnalyzeParams {
    pub image_path: String,
    pub subject: Option<String>,
    pub grade_level: Option<String>,
    pub color_teacher: Option<String>,
    pub color_correction: Option<String>,
}

/// Show an error record.
#[derive(Debug, Clone)]
pub struct ShowParams {
    pub id: String,
}

/// Show a summary.
#[derive(Debug, Clone)]
pub struct ShowSummaryParams {
    pub summary_id: String,
}

/// Show a practice set.
#[derive(Debug, Clone)]
pub struct ShowPracticeParams {
    pub practice_id: String,
}

/// List error records.
#[derive(Debug, Clone)]
pub struct ListParams {
    pub subject: Option<String>,
    pub from: Option<String>,
    pub to: Option<String>,
    pub limit: Option<u32>,
}

/// Search error records.
#[derive(Debug, Clone)]
pub struct SearchParams {
    pub query: String,
    pub subject: Option<String>,
    pub limit: Option<u32>,
}

/// Summarise a period.
#[derive(Debug, Clone)]
pub struct SummaryParams {
    pub subject: String,
    pub from: String,
    pub to: String,
    pub period_type: Option<String>,
}

/// Generate a practice set.
#[derive(Debug, Clone)]
pub struct PracticeParams {
    pub summary_id: String,
    pub count: Option<u32>,
    pub requirements: Option<String>,
    pub output_path: Option<String>,
}

/// List summaries.
#[derive(Debug, Clone)]
pub struct ListSummariesParams {
    pub subject: Option<String>,
    pub limit: Option<u32>,
}

/// List practice sets.
#[derive(Debug, Clone)]
pub struct ListPracticesParams {
    pub subject: Option<String>,
    pub summary_id: Option<String>,
    pub limit: Option<u32>,
}

/// Render a practice set as PDF.
#[derive(Debug, Clone)]
pub struct PracticePdfParams {
    pub practice_id: String,
    pub output_path: String,
}

/// The records a listing returns when no limit is given.
pub const DEFAULT_LIST_LIMIT: u32 = 20;

/// The records a search returns when no limit is given.
pub const DEFAULT_SEARCH_LIMIT: u32 = 10;

/// The questions a practice set has when no count is given.
pub const DEFAULT_PRACTICE_COUNT: u32 = 10;

/// The value of an optional limit, or the default.
pub open spec fn or_default(v: Option<u32>, d: u32) -> u32 {
    match v {
        Some(x) => x,
        None => d,
    }
}

impl ListParams {
    /// The limit of the listing: 20 unless given.
    pub fn effective_limit(&self) -> (r: u32)
        ensures
            r == or_default(self.limit, DEFAULT_LIST_LIMIT),
    {
        match self.limit {
            Some(l) => l,
            None => DEFAULT_LIST_LIMIT,
        }
    }
}

impl ListSummariesParams {
    /// The limit of the listing: 20 unless given.
    pub fn effective_limit(&self) -> (r: u32)
        ensures
            r == or_default(self.limit, DEFAULT_LIST_LIMIT),
    {
        match self.limit {
            Some(l) => l,
            None => DEFAULT_LIST_LIMIT,
        }
    }
}

impl ListPracticesParams {
    /// The limit of the listing: 20 unless given.
    pub fn effective_limit(&self) -> (r: u32)
        ensures
            r == or_default(self.limit, DEFAULT_LIST_LIMIT),
    {
        match self.limit {
            Some(l) => l,
            None => DEFAULT_LIST_LIMIT,
        }
    }
}

impl SearchParams {
    /// The limit of the search: 10 unless given.
    pub fn effective_limit(&self) -> (r: u32)
        ensures
            r == or_default(self.limit, DEFAULT_SEARCH_LIMIT),
    {
        match self.limit {
            Some(l) => l,
            None => DEFAULT_SEARCH_LIMIT,
        }
    }
}

impl PracticeParams {
    /// The number of questions: 10 unless given.
    pub fn effective_count(&self) -> (r: u32)
        ensures
            r == or_default(self.count, DEFAULT_PRACTICE_COUNT),
    {
        match self.count {
            Some(c) => c,
            None => DEFAULT_PRACTICE_COUNT,
        }
    }
}

impl SummaryParams {
    /// The period type: "week" unless given.
    pub fn effective_period_type(&self) -> (r: String)
        ensures
            self.period_type matches Some(p) ==> r@ == p@,
            self.period_type is None ==> r@ == "week"@,
    {
        match &self.period_type {
            Some(p) => p.clone(),
            None => "week".to_owned(),
        }
    }
}

} // verus!
