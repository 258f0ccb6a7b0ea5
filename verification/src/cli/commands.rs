//! The command line: its commands and how they map to requests.
use vstd::prelude::*;
use chrono::Datelike;
use crate::db::models::AnalysisRequest;
use crate::text::{append_str, chars_of, copy_range, string_from_chars};

verus! {

/// The command line: the configuration file and a command.
#[derive(Debug, Clone)]
pub struct Cli {
    /// The configuration file.
    pub config: String,
    pub command: Command,
}

/// The commands.
#[derive(Debug, Clone)]
pub enum Command {
    /// Analyse a photographed error.
    Analyze {
        image: String,
        subject: Option<String>,
        grade: Option<String>,
        color_teacher: Option<String>,
        color_correction: Option<String>,
    },
    /// Show an error record.
    Show { id: String },
    /// List error records.
    List { subject: Option<String>, from: Option<String>, to: Option<String>, limit: u32 },
    /// List summaries.
    ListSummaries { subject: Option<String>, limit: u32 },
    /// List practice sets.
    ListPractices { subject: Option<String>, summary_id: Option<String>, limit: u32 },
    /// Search error records by meaning.
    Search {
        query: Option<String>,
        image: Option<String>,
        with_image: bool,
        subject: Option<String>,
        limit: u32,
    },
    /// Summarise a period.
    Summary { subject: String, from: String, to: String, period_type: String },
    /// Draw an infographic for a summary.
    SummaryImage { summary_id: String, requirements: Option<String> },
    /// Generate a practice set.
    Practice {
        summary_id: String,
        count: u32,
        requirements: Option<String>,
        output: Option<String>,
    },
    /// Render a stored practice set as PDF again.
    PracticePdf { id: String, output: String },
    /// Delete a summary with its infographics and practice sets.
    CascadeDeleteSummary { summary_id: String },
    /// Upgrade older records: the scope's name, whether to only report,
    /// the most records to process, and whether the first failure stops the run.
    Backfill { scope: String, dry_run: bool, limit: Option<u64>, fail_fast: bool },
    /// Serve MCP over stdio.
    Mcp,
}

impl Command {
    /// A `YYYY-MM-DD` date; the error carries chrono's explanation.
    pub fn parse_date(s: &str) -> (r: Result<CalendarDate, String>)
        ensures
            r is Ok <==> date_parse(s@, "%Y-%m-%d"@) is Ok,
            r matches Ok(d) ==> date_parse(s@, "%Y-%m-%d"@) == Ok::<(i32, u32, u32), Seq<char>>(
                (d.year, d.month, d.day),
            ),
            r matches Err(m) ==> date_parse(s@, "%Y-%m-%d"@) matches Err(e) && m@
                == "日期格式错误 (需要 YYYY-MM-DD): "@ + e,
    {
        match parse_calendar_date(s) {
            Ok(d) => Ok(d),
            Err(e) => {
                let mut out: Vec<char> = Vec::new();
                append_str(&mut out, "日期格式错误 (需要 YYYY-MM-DD): ");
                append_str(&mut out, e.as_str());
                Err(string_from_chars(out.as_slice()))
            },
        }
    }

    /// The analysis request of an `analyze` command; `None` for the others.
    pub fn to_analysis_request(&self) -> (r: Option<AnalysisRequest>)
        ensures
            match self {
                Command::Analyze { image, subject, grade, color_teacher, color_correction } => r
                    matches Some(req) && req.image_path@ == image@ && req.subject == *subject
                    && req.grade_level == *grade && req.color_teacher == *color_teacher
                    && req.color_correction == *color_correction,
                _ => r is None,
            },
    {
        match self {
            Command::Analyze { image, subject, grade, color_teacher, color_correction } => Some(
                AnalysisRequest {
                    image_path: image.clone(),
                    subject: crate::text::copy_opt_string(subject),
                    grade_level: crate::text::copy_opt_string(grade),
                    color_teacher: crate::text::copy_opt_string(color_teacher),
                    color_correction: crate::text::copy_opt_string(color_correction),
                },
            ),
            _ => None,
        }
    }
}

// ── search ───────────────────────────────────────────────────────────

/// How a search runs.
#[derive(Debug, Clone, Copy, PartialEq, Eq, Structural)]
pub enum SearchMode {
    /// Text and image embeddings fused by weight; the text side only when the
    /// query is not empty.
    Mixed { with_text: bool },
    /// The image embedding alone, against the records' text embeddings.
    Image,
    /// The query's text embedding.
    Text,
}

/// The error when neither a query nor an image is given.
pub open spec fn search_input_error() -> Seq<char> {
    "搜索需要提供 --query 文本或 --image 图片（或两者同时提供）"@
}

/// The error when an image is given but the embedding provider cannot embed
/// images.
pub open spec fn search_image_error() -> Seq<char> {
    "当前 embedding provider 不支持图片搜索；请将 llm.embedding.provider 设置为 google"@
}

/// The mode of a search: a query or an image is needed, an image needs a
/// provider that embeds images; with an image, `--with-image` fuses it with
/// the query's text, otherwise the image searches alone; without one, the
/// query searches by text.
pub open spec fn search_mode_of(
    query: Option<Seq<char>>,
    has_image: bool,
    with_image: bool,
    image_supported: bool,
) -> Result<SearchMode, Seq<char>> {
    if query is None && !has_image {
        Err(search_input_error())
    } else if has_image && !image_supported {
        Err(search_image_error())
    } else if has_image && with_image {
        Ok(SearchMode::Mixed { with_text: query matches Some(q) && q.len() > 0 })
    } else if has_image {
        Ok(SearchMode::Image)
    } else {
        Ok(SearchMode::Text)
    }
}

/// Decides how a search runs, or why it cannot.
pub fn search_mode(
    query: &Option<String>,
    image: &Option<String>,
    with_image: bool,
    image_embedding_supported: bool,
) -> (r: Result<SearchMode, String>)
    ensures
        ({
            let q = match query {
                Some(s) => Some(s@),
                None => None,
            };
            let want = search_mode_of(q, image is Some, with_image, image_embedding_supported);
            match r {
                Ok(m) => want == Ok::<SearchMode, Seq<char>>(m),
                Err(e) => want == Err::<SearchMode, Seq<char>>(e@),
            }
        }),
{
    if query.is_none() && image.is_none() {
        return Err(
            string_from_chars(chars_of("搜索需要提供 --query 文本或 --image 图片（或两者同时提供）").as_slice()),
        );
    }
    if image.is_some() && !image_embedding_supported {
        return Err(
            string_from_chars(
                chars_of("当前 embedding provider 不支持图片搜索；请将 llm.embedding.provider 设置为 google").as_slice(),
            ),
        );
    }
    if image.is_some() && with_image {
        let with_text = match query {
            Some(q) => !q.as_str().is_empty(),
            None => false,
        };
        Ok(SearchMode::Mixed { with_text })
    } else if image.is_some() {
        Ok(SearchMode::Image)
    } else {
        Ok(SearchMode::Text)
    }
}

// ── dates ────────────────────────────────────────────────────────────

/// What `chrono::NaiveDate::parse_from_str(s, fmt)` gives: the year, month and
/// day of the date, or the text of its error.
pub uninterp spec fn date_parse(s: Seq<char>, fmt: Seq<char>) -> Result<(i32, u32, u32), Seq<char>>;

/// Calls `chrono::NaiveDate::parse_from_str` and hands back the date's year,
/// month and day, or the error's `Display` text. Beside the name, the contract
/// states the ranges chrono documents for `month()` and `day()`.
#[verifier::external_body]
fn parse_date_with_format(s: &str, fmt: &str) -> (r: Result<CalendarDate, String>)
    ensures
        r matches Ok(d) ==> (date_parse(s@, fmt@) matches Ok(t) && t == (d.year, d.month, d.day)),
        r matches Ok(d) ==> (1 <= d.month <= 12 && 1 <= d.day <= 31),
        r matches Err(m) ==> (date_parse(s@, fmt@) matches Err(e) && e == m@),
{
    match chrono::NaiveDate::parse_from_str(s, fmt) {
        Ok(d) => Ok(CalendarDate { year: d.year(), month: d.month(), day: d.day() }),
        Err(e) => Err(e.to_string()),
    }
}

/// A `YYYY-MM-DD` date; the error is chrono's own text.
pub fn parse_calendar_date(s: &str) -> (r: Result<CalendarDate, String>)
    ensures
        r is Ok <==> date_parse(s@, "%Y-%m-%d"@) is Ok,
        r matches Ok(d) ==> date_parse(s@, "%Y-%m-%d"@) == Ok::<(i32, u32, u32), Seq<char>>(
            (d.year, d.month, d.day),
        ),
        r matches Ok(d) ==> 1 <= d.month <= 12 && 1 <= d.day <= 31,
        r matches Err(m) ==> date_parse(s@, "%Y-%m-%d"@) == Err::<(i32, u32, u32), Seq<char>>(m@),
{
    parse_date_with_format(s, "%Y-%m-%d")
}

/// A calendar date.
#[derive(Debug, Clone, Copy, PartialEq, Eq, Structural)]
pub struct CalendarDate {
    pub year: i32,
    pub month: u32,
    pub day: u32,
}

/// A date with a time of day.
#[derive(Debug, Clone, Copy, PartialEq, Eq, Structural)]
pub struct CalendarDateTime {
    pub date: CalendarDate,
    pub hour: u32,
    pub minute: u32,
    pub second: u32,
}

impl CalendarDate {
    /// The first second of the day, 00:00:00: where a range starting on this
    /// date begins.
    pub fn start_of_day(&self) -> (t: CalendarDateTime)
        ensures
            t == (CalendarDateTime { date: *self, hour: 0, minute: 0, second: 0 }),
    {
        CalendarDateTime { date: *self, hour: 0, minute: 0, second: 0 }
    }

    /// The last second of the day, 23:59:59: where a range ending on this date
    /// ends.
    pub fn end_of_day(&self) -> (t: CalendarDateTime)
        ensures
            t == (CalendarDateTime { date: *self, hour: 23, minute: 59, second: 59 }),
    {
        CalendarDateTime { date: *self, hour: 23, minute: 59, second: 59 }
    }
}

/// `s` cut to `max_chars` characters for a listing, with "..." when cut.
pub open spec fn listing_text(s: Seq<char>, max_chars: nat) -> Seq<char> {
    if s.len() <= max_chars {
        s
    } else {
        s.take(max_chars as int) + "..."@
    }
}

/// Cuts `s` to `max_chars` characters for a listing, marking the cut with "...".
pub fn truncate(s: &str, max_chars: usize) -> (r: String)
    ensures
        r@ == listing_text(s@, max_chars as nat),
{
    let v = chars_of(s);
    if v.len() <= max_chars {
        string_from_chars(v.as_slice())
    } else {
        let mut out = copy_range(v.as_slice(), 0, max_chars);
        append_str(&mut out, "...");
        string_from_chars(out.as_slice())
    }
}

} // verus!
