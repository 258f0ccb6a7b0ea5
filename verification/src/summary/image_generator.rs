//! The decisions of summary image generation: file extensions and request
//! parameters by format, which failures are retried, and the download backoff.
use vstd::prelude::*;
use vstd::string::StringSliceAdditionalSpecFns;
use std::time::Duration;
use crate::config::millis_duration;
use crate::llm::client::random_below;
use crate::db::models::SummaryImage;
use crate::text::{
    copy_opt_string, has_prefix, starts_with_str,
    append_decimal, append_joined, append_str, decimal, find, join, same_text, str_contains,
    string_from_chars, views,
};

verus! {

/// A generated summary image and where its file is.
#[derive(Debug, Clone)]
pub struct GeneratedSummaryImage {
    pub record: SummaryImage,
    pub full_path: String,
}

/// The file extension for an image MIME type; PNG when unknown.
pub open spec fn extension_for(mime_type: Seq<char>) -> Seq<char> {
    if mime_type == "image/jpeg"@ {
        "jpg"@
    } else if mime_type == "image/webp"@ {
        "webp"@
    } else {
        "png"@
    }
}

/// The file extension for an image MIME type.
pub fn extension_from_mime_type(mime_type: &str) -> (r: &'static str)
    ensures
        r@ == extension_for(mime_type@),
{
    if same_text(mime_type, "image/jpeg") {
        "jpg"
    } else if same_text(mime_type, "image/webp") {
        "webp"
    } else {
        "png"
    }
}

/// The OpenAI image size for an aspect ratio: portrait, landscape or square.
pub open spec fn size_for(aspect_ratio: Seq<char>) -> Seq<char> {
    if aspect_ratio == "3:4"@ || aspect_ratio == "2:3"@ || aspect_ratio == "portrait"@ {
        "1024x1536"@
    } else if aspect_ratio == "4:3"@ || aspect_ratio == "3:2"@ || aspect_ratio == "landscape"@ {
        "1536x1024"@
    } else {
        "1024x1024"@
    }
}

/// The OpenAI image size for an aspect ratio.
pub fn openai_size_from_aspect_ratio(aspect_ratio: &str) -> (r: &'static str)
    ensures
        r@ == size_for(aspect_ratio@),
{
    if same_text(aspect_ratio, "3:4") || same_text(aspect_ratio, "2:3") || same_text(
        aspect_ratio,
        "portrait",
    ) {
        "1024x1536"
    } else if same_text(aspect_ratio, "4:3") || same_text(aspect_ratio, "3:2") || same_text(
        aspect_ratio,
        "landscape",
    ) {
        "1536x1024"
    } else {
        "1024x1024"
    }
}

/// The OpenAI output format for an image MIME type; PNG when unknown.
pub open spec fn output_format_for(mime_type: Seq<char>) -> Seq<char> {
    if mime_type == "image/jpeg"@ {
        "jpeg"@
    } else if mime_type == "image/webp"@ {
        "webp"@
    } else {
        "png"@
    }
}

/// The OpenAI output format for an image MIME type.
pub fn openai_output_format_from_mime_type(mime_type: &str) -> (r: &'static str)
    ensures
        r@ == output_format_for(mime_type@),
{
    if same_text(mime_type, "image/jpeg") {
        "jpeg"
    } else if same_text(mime_type, "image/webp") {
        "webp"
    } else {
        "png"
    }
}

/// Whether an error message reports a retryable HTTP status.
pub open spec fn mentions_retryable_status(text: Seq<char>) -> bool {
    find(text, "status=429"@) is Some || find(text, "status=500"@) is Some || find(
        text,
        "status=502"@,
    ) is Some || find(text, "status=503"@) is Some || find(text, "status=504"@) is Some
}

fn message_mentions_retryable_status(text: &str) -> (b: bool)
    ensures
        b == mentions_retryable_status(text@),
{
    str_contains(text, "status=429") || str_contains(text, "status=500") || str_contains(
        text,
        "status=502",
    ) || str_contains(text, "status=503") || str_contains(text, "status=504")
}

/// Whether some cause of an error chain (its messages, outermost first)
/// reports a retryable status.
pub fn is_retryable_status_error(chain: &Vec<String>) -> (b: bool)
    ensures
        b == exists|k: int| 0 <= k < chain@.len() && mentions_retryable_status(#[trigger] chain@[k]@),
{
    let n = chain.len();
    let mut i: usize = 0;
    while i < n
        invariant
            i <= n,
            n == chain@.len(),
            forall|k: int| 0 <= k < i ==> !mentions_retryable_status(#[trigger] chain@[k]@),
        decreases n - i,
    {
        if message_mentions_retryable_status(chain[i].as_str()) {
            return true;
        }
        i = i + 1;
    }
    false
}

/// An error chain on one line: `#0 outer | #1 cause | ...`.
pub open spec fn chain_line(chain: Seq<Seq<char>>) -> Seq<char> {
    join(Seq::new(chain.len(), |i: int| "#"@ + decimal(i as nat) + " "@ + chain[i]), " | "@)
}

/// Formats an error chain (its messages, outermost first) on one line.
pub fn format_error_chain(chain: &Vec<String>) -> (r: String)
    ensures
        r@ == chain_line(views(chain@)),
{
    let ghost target = Seq::new(views(chain@).len(), |i: int| "#"@ + decimal(i as nat) + " "@ + views(chain@)[i]);
    let n = chain.len();
    let mut items: Vec<String> = Vec::new();
    let mut i: usize = 0;
    while i < n
        invariant
            i <= n,
            n == chain@.len(),
            n == target.len(),
            forall|k: int| 0 <= k < n ==> #[trigger] target[k] == "#"@ + decimal(k as nat) + " "@ + chain@[k]@,
            views(items@) == target.take(i as int),
        decreases n - i,
    {
        let mut v: Vec<char> = Vec::new();
        append_str(&mut v, "#");
        append_decimal(&mut v, i);
        append_str(&mut v, " ");
        append_str(&mut v, chain[i].as_str());
        let ghost before = items@;
        items.push(string_from_chars(v.as_slice()));
        assert(views(items@) =~= views(before).push(target[i as int]));
        assert(views(items@) =~= target.take(i + 1));
        i = i + 1;
    }
    assert(target.take(n as int) =~= target);
    let mut out: Vec<char> = Vec::new();
    append_joined(&mut out, &items, " | ");
    string_from_chars(out.as_slice())
}

/// Statuses that mean a freshly generated image is not downloadable yet.
pub open spec fn download_retryable(status: u16) -> bool {
    status == 403 || status == 404 || status == 429 || status == 500 || status == 502 || status
        == 503 || status == 504
}

/// Whether a download with this status is retried.
pub fn is_download_retryable_status(status: u16) -> (b: bool)
    ensures
        b == download_retryable(status),
{
    status == 403 || status == 404 || status == 429 || status == 500 || status == 502 || status
        == 503 || status == 504
}

/// The download backoff in whole seconds: doubling per attempt from one
/// second, from the fourth retry on sixteen.
pub open spec fn download_backoff_secs(attempt: u32) -> nat {
    if attempt == 0 {
        1
    } else if attempt == 1 {
        2
    } else if attempt == 2 {
        4
    } else if attempt == 3 {
        8
    } else {
        16
    }
}

/// The download delay in milliseconds for retry `attempt` with this jitter.
pub open spec fn download_delay_ms(attempt: u32, jitter: u64) -> int {
    download_backoff_secs(attempt) * 1000 + jitter
}

/// The wait before download retry `attempt` with a given jitter, in
/// milliseconds: the backoff plus the jitter.
pub fn download_retry_delay_ms(attempt: u32, jitter: u64) -> (ms: u64)
    requires
        jitter < 200,
    ensures
        ms == download_delay_ms(attempt, jitter),
{
    let shift: u32 = if attempt < 4 {
        attempt
    } else {
        4
    };
    let secs: u64 = if shift == 0 {
        1
    } else if shift == 1 {
        2
    } else if shift == 2 {
        4
    } else if shift == 3 {
        8
    } else {
        16
    };
    secs * 1000 + jitter
}

/// The wait before download retry `attempt`: the backoff plus a random
/// jitter below 200 ms.
pub fn download_retry_delay(attempt: u32) -> (d: Duration)
    ensures
        exists|jitter: u64|
            jitter < 200 && d == #[trigger] millis_duration(
                download_delay_ms(attempt, jitter) as u64,
            ),
{
    let jitter = random_below(200);
    let ms = download_retry_delay_ms(attempt, jitter);
    let d = crate::config::millis(ms);
    assert(d == millis_duration(download_delay_ms(attempt, jitter) as u64));
    d
}

// ── Gemini image replies ─────────────────────────────────────────────

/// Inline image data of a Gemini reply part.
#[derive(Debug, Clone)]
pub struct GoogleInlineData {
    pub mime_type: Option<String>,
    pub data: String,
}

/// One part of a Gemini reply: text, inline data, or both absent.
#[derive(Debug, Clone)]
pub struct GoogleImagePart {
    pub text: Option<String>,
    pub inline_data: Option<GoogleInlineData>,
}

/// One candidate of a Gemini reply: the parts of its content, if it has any.
#[derive(Debug, Clone)]
pub struct GoogleImageCandidate {
    pub content: Option<Vec<GoogleImagePart>>,
}

/// An image found in a reply: its base64 bytes and media type.
#[derive(Debug, Clone)]
pub struct GoogleImagePrediction {
    pub bytes_base64_encoded: Option<String>,
    pub mime_type: Option<String>,
}

/// The first inline data among `parts`.
pub open spec fn first_inline_in_parts(parts: Seq<GoogleImagePart>) -> Option<GoogleInlineData>
    decreases parts.len(),
{
    if parts.len() == 0 {
        None
    } else if parts[0].inline_data is Some {
        parts[0].inline_data
    } else {
        first_inline_in_parts(parts.drop_first())
    }
}

/// The parts of a candidate.
pub open spec fn candidate_parts(c: GoogleImageCandidate) -> Seq<GoogleImagePart> {
    match c.content {
        Some(p) => p@,
        None => Seq::empty(),
    }
}

/// The first inline data of the first candidate that has one.
pub open spec fn first_inline(cands: Seq<GoogleImageCandidate>) -> Option<GoogleInlineData>
    decreases cands.len(),
{
    if cands.len() == 0 {
        None
    } else {
        match first_inline_in_parts(candidate_parts(cands[0])) {
            Some(d) => Some(d),
            None => first_inline(cands.drop_first()),
        }
    }
}

fn inline_in_parts(parts: &Vec<GoogleImagePart>) -> (r: Option<GoogleInlineData>)
    ensures
        r == first_inline_in_parts(parts@),
{
    let n = parts.len();
    let mut j: usize = 0;
    assert(parts@.subrange(0, n as int) =~= parts@);
    while j < n
        invariant
            n == parts@.len(),
            j <= n,
            first_inline_in_parts(parts@) == first_inline_in_parts(parts@.subrange(j as int, n as int)),
        decreases n - j,
    {
        assert(parts@.subrange(j as int, n as int).drop_first() =~= parts@.subrange(
            j + 1,
            n as int,
        ));
        match &parts[j].inline_data {
            Some(d) => {
                return Some(GoogleInlineData { mime_type: copy_opt_string(&d.mime_type), data: d.data.clone() });
            },
            None => {},
        }
        j = j + 1;
    }
    assert(parts@.subrange(n as int, n as int) =~= Seq::<GoogleImagePart>::empty());
    None
}

/// The image of a Gemini reply: the first inline data of the first candidate
/// that has one, or an error when the reply holds no image.
pub fn extract_gemini_image_prediction(candidates: &Vec<GoogleImageCandidate>) -> (r: Result<
    GoogleImagePrediction,
    String,
>)
    ensures
        r matches Ok(p) ==> first_inline(candidates@) matches Some(d) && p.bytes_base64_encoded
            == Some(d.data) && p.mime_type == d.mime_type,
        r is Err ==> first_inline(candidates@) is None,
        r matches Err(m) ==> m@ == "Gemini 图片生成返回中未找到图片数据"@,
{
    let n = candidates.len();
    let mut i: usize = 0;
    assert(candidates@.subrange(0, n as int) =~= candidates@);
    while i < n
        invariant
            n == candidates@.len(),
            i <= n,
            first_inline(candidates@) == first_inline(candidates@.subrange(i as int, n as int)),
        decreases n - i,
    {
        assert(candidates@.subrange(i as int, n as int).drop_first() =~= candidates@.subrange(
            i + 1,
            n as int,
        ));
        match &candidates[i].content {
            Some(parts) => {
                match inline_in_parts(parts) {
                    Some(d) => {
                        return Ok(GoogleImagePrediction { bytes_base64_encoded: Some(d.data), mime_type: d.mime_type });
                    },
                    None => {},
                }
            },
            None => {},
        }
        i = i + 1;
    }
    assert(candidates@.subrange(n as int, n as int) =~= Seq::<GoogleImageCandidate>::empty());
    Err("Gemini 图片生成返回中未找到图片数据".to_owned())
}

// ── image requests and replies ───────────────────────────────────────

/// Whether a Google image model is asked through `generateContent` (Gemini
/// models) rather than `predict` (Imagen models).
pub fn uses_generate_content(model: &str) -> (b: bool)
    ensures
        b == has_prefix(model@, "gemini-"@),
{
    starts_with_str(model, "gemini-")
}

/// The error of an image request that got a failure status: it names the
/// status as `status=N`, which is what decides a retry.
pub open spec fn image_failure_text(provider: Seq<char>, status: u16, body: Seq<char>) -> Seq<char> {
    provider + " 图片生成失败 (status="@ + decimal(status as nat) + "): "@ + body
}

/// Writes `image_failure_text`.
pub fn image_failure_message(provider: &str, status: u16, body: &str) -> (m: String)
    ensures
        m@ == image_failure_text(provider@, status, body@),
{
    let mut out: Vec<char> = Vec::new();
    append_str(&mut out, provider);
    append_str(&mut out, " 图片生成失败 (status=");
    append_decimal(&mut out, status as usize);
    append_str(&mut out, "): ");
    append_str(&mut out, body);
    string_from_chars(out.as_slice())
}

/// One element of an OpenAI image reply's `data`.
#[derive(Debug, Clone)]
pub struct OpenAiImageItem {
    pub b64_json: Option<String>,
    pub url: Option<String>,
}

/// Where the image of an OpenAI reply is.
#[derive(Debug, Clone)]
pub enum OpenAiImageSource {
    /// The image itself, base64 encoded.
    Inline(String),
    /// A URL to download it from.
    Url(String),
}

/// The first item that has an inline image or a URL, and which it has
/// (the inline image when it has both).
pub open spec fn first_image_source(items: Seq<OpenAiImageItem>) -> Option<(int, bool)>
    decreases items.len(),
{
    if items.len() == 0 {
        None
    } else if items[0].b64_json is Some {
        Some((0, true))
    } else if items[0].url is Some {
        Some((0, false))
    } else {
        match first_image_source(items.drop_first()) {
            Some((i, inline)) => Some((i + 1, inline)),
            None => None,
        }
    }
}

/// The image of an OpenAI reply: the first item's inline image, or its URL
/// when it has none; items with neither are skipped.
pub fn openai_image_source(items: &Vec<OpenAiImageItem>) -> (r: Result<OpenAiImageSource, String>)
    ensures
        r matches Ok(OpenAiImageSource::Inline(b)) ==> first_image_source(items@) matches Some(
            (i, inline),
        ) && inline && items@[i].b64_json == Some(b),
        r matches Ok(OpenAiImageSource::Url(u)) ==> first_image_source(items@) matches Some(
            (i, inline),
        ) && !inline && items@[i].url == Some(u),
        r is Err ==> first_image_source(items@) is None,
        r matches Err(m) ==> m@ == "OpenAI 图片生成返回中既没有 b64_json，也没有 url"@,
{
    let n = items.len();
    let mut k: usize = 0;
    while k < n
        invariant
            n == items@.len(),
            k <= n,
            forall|j: int| 0 <= j < k ==> items@[j].b64_json is None && items@[j].url is None,
        decreases n - k,
    {
        match &items[k].b64_json {
            Some(b) => {
                proof {
                    lemma_first_image_source_skips(items@, k as int);
                }
                return Ok(OpenAiImageSource::Inline(b.clone()));
            },
            None => {},
        }
        match &items[k].url {
            Some(u) => {
                proof {
                    lemma_first_image_source_skips(items@, k as int);
                }
                return Ok(OpenAiImageSource::Url(u.clone()));
            },
            None => {},
        }
        k = k + 1;
    }
    proof {
        lemma_first_image_source_skips(items@, n as int);
    }
    Err("OpenAI 图片生成返回中既没有 b64_json，也没有 url".to_owned())
}

proof fn lemma_first_image_source_skips(items: Seq<OpenAiImageItem>, k: int)
    requires
        0 <= k <= items.len(),
        forall|j: int| 0 <= j < k ==> items[j].b64_json is None && items[j].url is None,
    ensures
        k == items.len() ==> first_image_source(items) is None,
        k < items.len() && items[k].b64_json is Some ==> first_image_source(items) == Some(
            (k, true),
        ),
        k < items.len() && items[k].b64_json is None && items[k].url is Some ==> first_image_source(
            items,
        ) == Some((k, false)),
    decreases k,
{
    if k > 0 {
        let rest = items.drop_first();
        assert forall|j: int| 0 <= j < k - 1 implies rest[j].b64_json is None && rest[j].url is None by {
            assert(rest[j] == items[j + 1]);
        }
        lemma_first_image_source_skips(rest, k - 1);
        if k < items.len() {
            assert(rest[k - 1] == items[k]);
        }
    }
}

/// The media type of a generated image: the one the reply names, else the
/// configured one.
pub fn image_mime_type(reply: Option<String>, configured: &str) -> (r: String)
    ensures
        reply matches Some(m) ==> r == m,
        reply is None ==> r@ == configured@,
{
    match reply {
        Some(m) => m,
        None => configured.to_owned(),
    }
}

/// The base64 image of a reply, or the error when it has none.
pub fn prediction_image(p: GoogleImagePrediction) -> (r: Result<String, String>)
    ensures
        p.bytes_base64_encoded matches Some(b) ==> r == Ok::<String, String>(b),
        p.bytes_base64_encoded is None ==> (r matches Err(m) && m@ == "图片接口未返回图片数据"@),
{
    match p.bytes_base64_encoded {
        Some(b) => Ok(b),
        None => Err("图片接口未返回图片数据".to_owned()),
    }
}

// ── downloads ────────────────────────────────────────────────────────

/// Downloads of a generated image are tried this many times.
pub const DOWNLOAD_MAX_ATTEMPTS: u32 = 5;

/// What came of one download attempt.
#[derive(Debug, Clone, Copy, PartialEq, Eq, Structural)]
pub enum DownloadEvent {
    /// The request failed before a status came back.
    NetworkError,
    /// A reply with this status.
    Status(u16),
}

/// What the download loop does next.
#[derive(Debug, Clone, Copy, PartialEq, Eq, Structural)]
pub enum DownloadAction {
    /// Wait `download_retry_delay(attempt)` and try again.
    Retry,
    /// Give up: the network failed on the last attempt.
    GiveUpNetwork,
    /// Give up: the status is a failure that is not retried now.
    FailStatus,
    /// Read the body: it is the image.
    ReadBody,
}

/// The next step of the download loop after attempt `attempt` (from 0).
pub open spec fn download_action(attempt: u32, event: DownloadEvent) -> DownloadAction {
    let last = attempt + 1 >= DOWNLOAD_MAX_ATTEMPTS;
    match event {
        DownloadEvent::NetworkError => if last {
            DownloadAction::GiveUpNetwork
        } else {
            DownloadAction::Retry
        },
        DownloadEvent::Status(s) => if download_retryable(s) && !last {
            DownloadAction::Retry
        } else if !(200 <= s && s < 300) {
            DownloadAction::FailStatus
        } else {
            DownloadAction::ReadBody
        },
    }
}

/// Decides the next step of the download loop.
pub fn download_step(attempt: u32, event: DownloadEvent) -> (a: DownloadAction)
    ensures
        a == download_action(attempt, event),
{
    let last = attempt >= DOWNLOAD_MAX_ATTEMPTS - 1;
    match event {
        DownloadEvent::NetworkError => if last {
            DownloadAction::GiveUpNetwork
        } else {
            DownloadAction::Retry
        },
        DownloadEvent::Status(s) => if is_download_retryable_status(s) && !last {
            DownloadAction::Retry
        } else if !(200 <= s && s < 300) {
            DownloadAction::FailStatus
        } else {
            DownloadAction::ReadBody
        },
    }
}

/// The download loop retries only while attempts remain, and never reads a
/// failure status as the image.
pub proof fn downloads_are_bounded(attempt: u32, event: DownloadEvent)
    ensures
        download_action(attempt, event) == DownloadAction::Retry ==> attempt + 1
            < DOWNLOAD_MAX_ATTEMPTS,
        download_action(attempt, event) == DownloadAction::ReadBody ==> (event matches DownloadEvent::Status(
            s,
        ) && 200 <= s < 300),
{
}

/// The end of the longest prefix of `b` of at most `max_len` bytes that ends
/// on a character boundary.
pub open spec fn boundary_at_most(b: Seq<u8>, max_len: int) -> int
    decreases max_len,
{
    if max_len <= 0 {
        0
    } else if vstd::utf8::is_char_boundary(b, max_len) {
        max_len
    } else {
        boundary_at_most(b, max_len - 1)
    }
}

/// `s` cut to at most `max_len` bytes, at a character boundary, for logs.
pub fn truncate_str(s: &str, max_len: usize) -> (r: &str)
    ensures
        s.len() <= max_len ==> r@ == s@,
        s.len() > max_len ==> r.spec_bytes() == s.spec_bytes().subrange(
            0,
            boundary_at_most(s.spec_bytes(), max_len as int),
        ),
{
    if s.len() <= max_len {
        return s;
    }
    let mut end = max_len;
    while end > 0 && !s.is_char_boundary(end)
        invariant
            end <= max_len,
            boundary_at_most(s.spec_bytes(), max_len as int) == boundary_at_most(s.spec_bytes(), end as int),
        decreases end,
    {
        end = end - 1;
    }
    proof {
        vstd::utf8::encode_utf8_valid_utf8(s@);
    }
    s.split_at(end).0
}

} // verus!
