//! Chat messages and the decisions of the model clients: how messages are
//! reshaped for each protocol, what a request carries, how replies and
//! failures are read, and when and how long to wait before a retry.
use vstd::prelude::*;
use std::time::Duration;
use rand::RngExt;
use crate::config::{
    millis_duration, ChatProvider, ResolvedModel, ResolvedProvider, RetryConfig, RoleKind, ThinkingConfig,
    ThinkingModel, copy_thinking, thinking_opt_view, canonical_effort,
};
use crate::text::{
    append_joined, append_str, chars_of, ellipsize, ellipsized, join, same_text, string_from_chars,
    trim, trim_chars, trim_end_char, trim_end_matches_char, views, copy_opt_string,
};

verus! {

// ── messages ─────────────────────────────────────────────────────────

/// One part of a chat message.
#[derive(Debug, Clone)]
pub enum ChatPart {
    Text(String),
    Image { mime_type: String, data: String },
}

/// A chat message: a role and its parts.
#[derive(Debug, Clone)]
pub struct ChatMessage {
    pub role: String,
    pub parts: Vec<ChatPart>,
}

/// The content of a message part.
pub enum PartModel {
    Text(Seq<char>),
    Image(Seq<char>, Seq<char>),
}

/// The content of a message.
pub struct MessageModel {
    pub role: Seq<char>,
    pub parts: Seq<PartModel>,
}

impl View for ChatPart {
    type V = PartModel;

    open spec fn view(&self) -> PartModel {
        match self {
            ChatPart::Text(t) => PartModel::Text(t@),
            ChatPart::Image { mime_type, data } => PartModel::Image(mime_type@, data@),
        }
    }
}

/// The contents of message parts.
pub open spec fn part_views(v: Seq<ChatPart>) -> Seq<PartModel> {
    v.map_values(|p: ChatPart| p@)
}

impl View for ChatMessage {
    type V = MessageModel;

    open spec fn view(&self) -> MessageModel {
        MessageModel { role: self.role@, parts: part_views(self.parts@) }
    }
}

/// The contents of messages.
pub open spec fn message_views(v: Seq<ChatMessage>) -> Seq<MessageModel> {
    v.map_values(|m: ChatMessage| m@)
}

impl ChatMessage {
    /// A system message with one text part.
    pub fn system(content: &str) -> (m: ChatMessage)
        ensures
            m@.role == "system"@,
            m@.parts == seq![PartModel::Text(content@)],
    {
        let mut parts: Vec<ChatPart> = Vec::new();
        parts.push(ChatPart::Text(content.to_owned()));
        let m = ChatMessage { role: "system".to_owned(), parts };
        assert(m@.parts =~= seq![PartModel::Text(content@)]);
        m
    }

    /// A user message with one text part.
    pub fn user_text(content: &str) -> (m: ChatMessage)
        ensures
            m@.role == "user"@,
            m@.parts == seq![PartModel::Text(content@)],
    {
        let mut parts: Vec<ChatPart> = Vec::new();
        parts.push(ChatPart::Text(content.to_owned()));
        let m = ChatMessage { role: "user".to_owned(), parts };
        assert(m@.parts =~= seq![PartModel::Text(content@)]);
        m
    }

    /// A user message with an image (base64 data of the given media type)
    /// followed by a text.
    pub fn user_image_text(image_base64: &str, media_type: &str, text: &str) -> (m: ChatMessage)
        ensures
            m@.role == "user"@,
            m@.parts == seq![
                PartModel::Image(media_type@, image_base64@),
                PartModel::Text(text@),
            ],
    {
        let mut parts: Vec<ChatPart> = Vec::new();
        parts.push(ChatPart::Image { mime_type: media_type.to_owned(), data: image_base64.to_owned() });
        parts.push(ChatPart::Text(text.to_owned()));
        let m = ChatMessage { role: "user".to_owned(), parts };
        assert(m@.parts =~= seq![
            PartModel::Image(media_type@, image_base64@),
            PartModel::Text(text@),
        ]);
        m
    }
}

/// A copy of a message part.
pub fn copy_part(p: &ChatPart) -> (r: ChatPart)
    ensures
        r@ == p@,
{
    match p {
        ChatPart::Text(t) => ChatPart::Text(t.clone()),
        ChatPart::Image { mime_type, data } => ChatPart::Image {
            mime_type: mime_type.clone(),
            data: data.clone(),
        },
    }
}

/// A copy of message parts.
pub fn copy_parts(v: &Vec<ChatPart>) -> (r: Vec<ChatPart>)
    ensures
        part_views(r@) == part_views(v@),
{
    let n = v.len();
    let mut out: Vec<ChatPart> = Vec::new();
    let mut i: usize = 0;
    while i < n
        invariant
            i <= n,
            n == v@.len(),
            part_views(out@) == part_views(v@).take(i as int),
        decreases n - i,
    {
        let ghost before = out@;
        out.push(copy_part(&v[i]));
        assert(part_views(out@) =~= part_views(before).push(v@[i as int]@));
        assert(part_views(v@).take(i + 1) =~= part_views(v@).take(i as int).push(v@[i as int]@));
        i = i + 1;
    }
    assert(part_views(v@).take(n as int) =~= part_views(v@));
    out
}

/// A copy of a message.
pub fn copy_message(m: &ChatMessage) -> (r: ChatMessage)
    ensures
        r@ == m@,
{
    ChatMessage { role: m.role.clone(), parts: copy_parts(&m.parts) }
}

/// A copy of messages.
pub fn copy_messages(v: &[ChatMessage]) -> (r: Vec<ChatMessage>)
    ensures
        message_views(r@) == message_views(v@),
{
    let n = v.len();
    let mut out: Vec<ChatMessage> = Vec::new();
    let mut i: usize = 0;
    while i < n
        invariant
            i <= n,
            n == v@.len(),
            message_views(out@) == message_views(v@).take(i as int),
        decreases n - i,
    {
        let ghost before = out@;
        out.push(copy_message(&v[i]));
        assert(message_views(out@) =~= message_views(before).push(v@[i as int]@));
        assert(message_views(v@).take(i + 1) =~= message_views(v@).take(i as int).push(
            v@[i as int]@,
        ));
        i = i + 1;
    }
    assert(message_views(v@).take(n as int) =~= message_views(v@));
    out
}

// ── folding system messages into the first user message ─────────────

/// The texts of the text parts, in order.
pub open spec fn part_texts(parts: Seq<PartModel>) -> Seq<Seq<char>>
    decreases parts.len(),
{
    if parts.len() == 0 {
        Seq::empty()
    } else {
        match parts.last() {
            PartModel::Text(t) => part_texts(parts.drop_last()).push(t),
            PartModel::Image(_, _) => part_texts(parts.drop_last()),
        }
    }
}

/// The texts of the system messages, each its text parts joined by `\n`.
pub open spec fn system_texts(msgs: Seq<MessageModel>) -> Seq<Seq<char>>
    decreases msgs.len(),
{
    if msgs.len() == 0 {
        Seq::empty()
    } else if msgs.last().role == "system"@ {
        system_texts(msgs.drop_last()).push(join(part_texts(msgs.last().parts), "\n"@))
    } else {
        system_texts(msgs.drop_last())
    }
}

/// The system instructions block built from the system text.
pub open spec fn instructions_block(system_text: Seq<char>) -> Seq<char> {
    "[System Instructions]\n"@ + system_text + "\n[End System Instructions]"@
}

/// The non-system messages of the first `n`, the first user message with
/// `prefix` as an extra first text part; and whether a user message was seen.
pub open spec fn fold_scan(msgs: Seq<MessageModel>, prefix: Seq<char>, n: int) -> (
    Seq<MessageModel>,
    bool,
)
    decreases n,
{
    if n <= 0 {
        (Seq::empty(), false)
    } else {
        let (out, patched) = fold_scan(msgs, prefix, n - 1);
        let m = msgs[n - 1];
        if m.role == "system"@ {
            (out, patched)
        } else if m.role == "user"@ && !patched {
            (
                out.push(
                    MessageModel { role: "user"@, parts: seq![PartModel::Text(prefix)] + m.parts },
                ),
                true,
            )
        } else {
            (out.push(m), patched)
        }
    }
}

/// The messages for a provider that rejects the system role: the system
/// texts folded into an instructions block at the head of the first user
/// message (or of a new user message when there is none), other messages in
/// their order.
pub open spec fn collapsed_messages(msgs: Seq<MessageModel>) -> Seq<MessageModel> {
    let st = join(system_texts(msgs), "\n"@);
    if st.len() == 0 {
        msgs
    } else {
        let prefix = instructions_block(st);
        let (out, patched) = fold_scan(msgs, prefix, msgs.len() as int);
        if patched {
            out
        } else {
            seq![MessageModel { role: "user"@, parts: seq![PartModel::Text(prefix)] }] + out
        }
    }
}

proof fn lemma_fold_scan_no_system(msgs: Seq<MessageModel>, prefix: Seq<char>, n: int)
    ensures
        forall|i: int|
            0 <= i < fold_scan(msgs, prefix, n).0.len() ==> (#[trigger] fold_scan(
                msgs,
                prefix,
                n,
            ).0[i]).role != "system"@,
    decreases n,
{
    reveal_strlit("user");
    reveal_strlit("system");
    assert("user"@.len() != "system"@.len());
    if n > 0 {
        lemma_fold_scan_no_system(msgs, prefix, n - 1);
        let (out, patched) = fold_scan(msgs, prefix, n - 1);
        let m = msgs[n - 1];
        let r = fold_scan(msgs, prefix, n).0;
        assert forall|i: int| 0 <= i < r.len() implies (#[trigger] r[i]).role != "system"@ by {
            if i < out.len() {
                assert(out[i].role != "system"@);
                if m.role == "system"@ {
                } else {
                    assert(r[i] == out[i]);
                }
            }
        }
    }
}

/// Once there is system text to fold, no message of the result has the
/// system role.
pub proof fn collapsed_has_no_system_role(msgs: Seq<MessageModel>)
    requires
        join(system_texts(msgs), "\n"@).len() > 0,
    ensures
        forall|i: int|
            0 <= i < collapsed_messages(msgs).len() ==> (#[trigger] collapsed_messages(msgs)[i]).role
                != "system"@,
{
    reveal_strlit("user");
    reveal_strlit("system");
    assert("user"@.len() != "system"@.len());
    let prefix = instructions_block(join(system_texts(msgs), "\n"@));
    lemma_fold_scan_no_system(msgs, prefix, msgs.len() as int);
    let (out, patched) = fold_scan(msgs, prefix, msgs.len() as int);
    let r = collapsed_messages(msgs);
    assert forall|i: int| 0 <= i < r.len() implies (#[trigger] r[i]).role != "system"@ by {
        if !patched {
            if i > 0 {
                assert(r[i] == out[i - 1]);
            }
        } else {
            assert(r[i] == out[i]);
        }
    }
}

fn texts_of_parts(parts: &Vec<ChatPart>) -> (r: Vec<String>)
    ensures
        views(r@) == part_texts(part_views(parts@)),
{
    let n = parts.len();
    let mut out: Vec<String> = Vec::new();
    let mut i: usize = 0;
    while i < n
        invariant
            i <= n,
            n == parts@.len(),
            views(out@) == part_texts(part_views(parts@).take(i as int)),
        decreases n - i,
    {
        let ghost pv = part_views(parts@).take(i + 1);
        assert(pv.drop_last() =~= part_views(parts@).take(i as int));
        assert(pv.last() == parts@[i as int]@);
        match &parts[i] {
            ChatPart::Text(t) => {
                let ghost before = out@;
                out.push(t.clone());
                assert(views(out@) =~= views(before).push(t@));
            },
            ChatPart::Image { .. } => {},
        }
        i = i + 1;
    }
    assert(part_views(parts@).take(n as int) =~= part_views(parts@));
    out
}

/// Folds system messages into the first user message, for providers that
/// reject the system role.
pub fn collapse_system_messages(messages: &[ChatMessage]) -> (r: Vec<ChatMessage>)
    ensures
        message_views(r@) == collapsed_messages(message_views(messages@)),
{
    let ghost mv = message_views(messages@);
    let n = messages.len();
    let mut sys: Vec<String> = Vec::new();
    let mut i: usize = 0;
    while i < n
        invariant
            i <= n,
            n == messages@.len(),
            mv == message_views(messages@),
            views(sys@) == system_texts(mv.take(i as int)),
        decreases n - i,
    {
        assert(mv.take(i + 1).drop_last() =~= mv.take(i as int));
        assert(mv.take(i + 1).last() == messages@[i as int]@);
        if same_text(messages[i].role.as_str(), "system") {
            let texts = texts_of_parts(&messages[i].parts);
            let mut j: Vec<char> = Vec::new();
            append_joined(&mut j, &texts, "\n");
            let ghost before = sys@;
            sys.push(string_from_chars(j.as_slice()));
            assert(views(sys@) =~= views(before).push(j@));
        }
        i = i + 1;
    }
    assert(mv.take(n as int) =~= mv);
    let mut stv: Vec<char> = Vec::new();
    append_joined(&mut stv, &sys, "\n");
    if stv.len() == 0 {
        return copy_messages(messages);
    }
    let mut pv: Vec<char> = Vec::new();
    append_str(&mut pv, "[System Instructions]\n");
    pv.extend_from_slice(stv.as_slice());
    append_str(&mut pv, "\n[End System Instructions]");
    let prefix = string_from_chars(pv.as_slice());
    let ghost pre = prefix@;
    assert(pre == instructions_block(stv@));
    let mut result: Vec<ChatMessage> = Vec::new();
    let mut patched = false;
    let mut k: usize = 0;
    while k < n
        invariant
            k <= n,
            n == messages@.len(),
            mv == message_views(messages@),
            pre == prefix@,
            (message_views(result@), patched) == fold_scan(mv, pre, k as int),
        decreases n - k,
    {
        let msg = &messages[k];
        assert(mv[k as int] == msg@);
        if same_text(msg.role.as_str(), "system") {
        } else if same_text(msg.role.as_str(), "user") && !patched {
            let mut new_parts: Vec<ChatPart> = Vec::new();
            new_parts.push(ChatPart::Text(prefix.clone()));
            let mut rest = copy_parts(&msg.parts);
            let ghost np = new_parts@;
            new_parts.append(&mut rest);
            assert(part_views(new_parts@) =~= seq![PartModel::Text(pre)] + part_views(msg.parts@));
            let ghost before = result@;
            result.push(ChatMessage { role: "user".to_owned(), parts: new_parts });
            assert(message_views(result@) =~= message_views(before).push(
                MessageModel { role: "user"@, parts: seq![PartModel::Text(pre)] + msg@.parts },
            ));
            patched = true;
        } else {
            let ghost before = result@;
            result.push(copy_message(msg));
            assert(message_views(result@) =~= message_views(before).push(msg@));
        }
        k = k + 1;
    }
    if !patched {
        let ghost before = result@;
        result.insert(0, ChatMessage::user_text(prefix.as_str()));
        assert(message_views(result@) =~= seq![
            MessageModel { role: "user"@, parts: seq![PartModel::Text(pre)] },
        ] + message_views(before));
    }
    result
}

// ── Google replies ───────────────────────────────────────────────────

/// One part of a Google reply.
#[derive(Debug, Clone)]
pub struct GooglePart {
    pub text: Option<String>,
}

/// The content of a Google reply candidate.
#[derive(Debug, Clone)]
pub struct GoogleContent {
    pub parts: Vec<GooglePart>,
}

/// One candidate of a Google reply.
#[derive(Debug, Clone)]
pub struct GoogleCandidate {
    pub content: Option<GoogleContent>,
    pub finish_reason: Option<String>,
}

/// A Google `generateContent` reply.
#[derive(Debug, Clone)]
pub struct GoogleChatResponse {
    pub candidates: Vec<GoogleCandidate>,
}

/// The texts of the parts that have one, in order.
pub open spec fn google_texts(parts: Seq<GooglePart>) -> Seq<Seq<char>>
    decreases parts.len(),
{
    if parts.len() == 0 {
        Seq::empty()
    } else {
        match parts.last().text {
            Some(t) => google_texts(parts.drop_last()).push(t@),
            None => google_texts(parts.drop_last()),
        }
    }
}

/// The text of a Google reply: the first candidate's part texts joined by
/// `\n`; an error when there is no candidate or only blank text.
pub open spec fn google_reply_text(resp: GoogleChatResponse) -> Result<Seq<char>, Seq<char>> {
    if resp.candidates@.len() == 0 {
        Err("Google Chat API 返回空响应"@)
    } else {
        let c = resp.candidates@[0];
        let text = match c.content {
            Some(ct) => join(google_texts(ct.parts@), "\n"@),
            None => Seq::empty(),
        };
        if trim(text).len() == 0 {
            Err(
                "Google Chat API 未返回文本内容，finish_reason="@ + match c.finish_reason {
                    Some(r) => r@,
                    None => "unknown"@,
                },
            )
        } else {
            Ok(text)
        }
    }
}

/// Reads the text of a Google reply.
pub fn extract_google_chat_text(resp: GoogleChatResponse) -> (r: Result<String, String>)
    ensures
        r matches Ok(t) ==> google_reply_text(resp) == Ok::<Seq<char>, Seq<char>>(t@),
        r matches Err(m) ==> google_reply_text(resp) == Err::<Seq<char>, Seq<char>>(m@),
{
    if resp.candidates.len() == 0 {
        return Err("Google Chat API 返回空响应".to_owned());
    }
    let c = &resp.candidates[0];
    let mut tv: Vec<char> = Vec::new();
    match &c.content {
        Some(ct) => {
            let n = ct.parts.len();
            let mut texts: Vec<String> = Vec::new();
            let mut i: usize = 0;
            while i < n
                invariant
                    i <= n,
                    n == ct.parts@.len(),
                    views(texts@) == google_texts(ct.parts@.take(i as int)),
                decreases n - i,
            {
                assert(ct.parts@.take(i + 1).drop_last() =~= ct.parts@.take(i as int));
                match &ct.parts[i].text {
                    Some(t) => {
                        let ghost before = texts@;
                        texts.push(t.clone());
                        assert(views(texts@) =~= views(before).push(t@));
                    },
                    None => {},
                }
                i = i + 1;
            }
            assert(ct.parts@.take(n as int) =~= ct.parts@);
            append_joined(&mut tv, &texts, "\n");
        },
        None => {},
    }
    let t = trim_chars(tv.as_slice());
    if t.len() == 0 {
        let mut m: Vec<char> = Vec::new();
        append_str(&mut m, "Google Chat API 未返回文本内容，finish_reason=");
        match &c.finish_reason {
            Some(reason) => append_str(&mut m, reason.as_str()),
            None => append_str(&mut m, "unknown"),
        }
        return Err(string_from_chars(m.as_slice()));
    }
    Ok(string_from_chars(tv.as_slice()))
}

/// The role name Google expects: `model` for the assistant, else `user`.
pub open spec fn google_role(role: Seq<char>) -> Seq<char> {
    if role == "assistant"@ {
        "model"@
    } else {
        "user"@
    }
}

/// Maps a chat role to Google's role names.
pub fn map_google_role(role: &str) -> (r: &'static str)
    ensures
        r@ == google_role(role@),
{
    if same_text(role, "assistant") {
        "model"
    } else {
        "user"
    }
}

// ── failures ─────────────────────────────────────────────────────────

/// The most characters of a reply body kept in an error.
pub const BODY_SNIPPET_MAX_LEN: usize = 500;

/// A reply body cut to `max_len` characters for an error, with "…" when cut.
pub fn truncate_body(body: &str, max_len: usize) -> (r: String)
    ensures
        r@ == ellipsized(body@, max_len as nat),
{
    ellipsize(body, max_len)
}

/// A failed model request that got a reply.
#[derive(Debug, Clone)]
pub enum LlmError {
    /// A non-success status.
    ApiError { status: u16, body: String, retryable: bool },
    /// A success status whose body could not be read as a reply.
    ParseError {
        status: u16,
        content_type: Option<String>,
        body_len: usize,
        body_snippet: String,
        parse_error: String,
    },
}

impl LlmError {
    /// Whether the request is worth repeating: API errors with a retryable
    /// status; never a reply that could not be parsed.
    pub fn is_retryable(&self) -> (b: bool)
        ensures
            b == match self {
                LlmError::ApiError { retryable, .. } => *retryable,
                LlmError::ParseError { .. } => false,
            },
    {
        match self {
            LlmError::ApiError { retryable, .. } => *retryable,
            LlmError::ParseError { .. } => false,
        }
    }
}

/// The error for a reply with a non-success status.
pub fn api_error(status: u16, body: String, retry: &RetryConfig) -> (e: LlmError)
    ensures
        e matches LlmError::ApiError { status: s, body: b, retryable } && s == status && b == body
            && retryable == retry.retryable_status_codes@.contains(status),
{
    let retryable = retry.is_retryable(status);
    LlmError::ApiError { status, body, retryable }
}

/// The error for a success reply whose body could not be parsed: the body's
/// length in bytes and its first 500 characters.
pub fn parse_failure(
    status: u16,
    content_type: Option<String>,
    raw_body: &str,
    parse_error: String,
) -> (e: LlmError)
    ensures
        e matches LlmError::ParseError { status: s, content_type: ct, body_len, body_snippet, parse_error: pe }
            && s == status && ct == content_type && body_len == crate::text::byte_len(raw_body@)
            && body_snippet@ == ellipsized(raw_body@, 500) && pe == parse_error,
{
    LlmError::ParseError {
        status,
        content_type,
        body_len: raw_body.len(),
        body_snippet: truncate_body(raw_body, BODY_SNIPPET_MAX_LEN),
        parse_error,
    }
}

/// Whether a failed request is retried: an `LlmError` says so itself; any
/// other failure (the network) is retried.
pub fn should_retry(error: Option<&LlmError>) -> (b: bool)
    ensures
        b == match error {
            Some(e) => match *e {
                LlmError::ApiError { retryable, .. } => retryable,
                LlmError::ParseError { .. } => false,
            },
            None => true,
        },
{
    match error {
        Some(e) => e.is_retryable(),
        None => true,
    }
}

/// Whether the request loop gives up after a failure in attempt `attempt`
/// (counting from 0): the failure is not retryable or no attempt is left.
pub fn gives_up(attempt: u32, max_attempts: u32, retryable: bool) -> (b: bool)
    requires
        attempt < max_attempts,
    ensures
        b == (!retryable || attempt + 1 >= max_attempts),
{
    !retryable || attempt + 1 >= max_attempts
}

/// The content of the first choice of an OpenAI reply.
pub fn first_choice_content(contents: Vec<String>) -> (r: Result<String, String>)
    ensures
        contents@.len() > 0 ==> r == Ok::<String, String>(contents@[0]),
        contents@.len() == 0 ==> (r matches Err(m) && m@ == "Chat API 返回空响应"@),
{
    let mut contents = contents;
    if contents.len() > 0 {
        Ok(contents.remove(0))
    } else {
        Err("Chat API 返回空响应".to_owned())
    }
}

// ── retry delays ─────────────────────────────────────────────────────

/// `2^attempt`, saturated at `u32::MAX` (`u32::saturating_pow`).
pub open spec fn pow2_saturating(attempt: u32) -> nat
    decreases attempt,
{
    if attempt == 0 {
        1
    } else {
        let p = 2 * pow2_saturating((attempt - 1) as u32);
        if p > u32::MAX {
            u32::MAX as nat
        } else {
            p
        }
    }
}

fn two_pow_saturating(attempt: u32) -> (r: u32)
    ensures
        r == pow2_saturating(attempt),
{
    let mut p: u32 = 1;
    let mut k: u32 = 0;
    while k < attempt
        invariant
            k <= attempt,
            p == pow2_saturating(k),
        decreases attempt - k,
    {
        k = k + 1;
        if p > u32::MAX / 2 {
            p = u32::MAX;
        } else {
            p = p * 2;
        }
        assert(pow2_saturating(k) == if 2 * pow2_saturating((k - 1) as u32) > u32::MAX {
            u32::MAX as nat
        } else {
            2 * pow2_saturating((k - 1) as u32)
        });
    }
    p
}

/// The retry delay in milliseconds: the base delay doubled per attempt, plus
/// the jitter, at most the maximum delay.
pub open spec fn backoff_ms(base_ms: u64, max_ms: u64, attempt: u32, jitter_ms: u64) -> nat {
    let d = base_ms * pow2_saturating(attempt) + jitter_ms;
    if d <= max_ms {
        d as nat
    } else {
        max_ms as nat
    }
}

/// A retry never waits longer than the maximum delay, and below it the wait
/// grows with the attempt.
pub proof fn backoff_is_bounded_and_grows(base_ms: u64, max_ms: u64, attempt: u32, jitter_ms: u64)
    ensures
        backoff_ms(base_ms, max_ms, attempt, jitter_ms) <= max_ms,
        attempt < u32::MAX ==> backoff_ms(base_ms, max_ms, attempt, jitter_ms) <= backoff_ms(
            base_ms,
            max_ms,
            (attempt + 1) as u32,
            jitter_ms,
        ),
{
    let a1 = (attempt + 1) as u32;
    if attempt < u32::MAX {
        assert(pow2_saturating(a1) >= pow2_saturating(attempt)) by {
            lemma_pow2_saturating_bounded(attempt);
        }
        assert(base_ms * pow2_saturating(a1) >= base_ms * pow2_saturating(attempt)) by (nonlinear_arith)
            requires
                pow2_saturating(a1) >= pow2_saturating(attempt),
        ;
    }
}

/// `2^attempt` saturated lies in `1 ..= u32::MAX`.
proof fn lemma_pow2_saturating_bounded(attempt: u32)
    ensures
        1 <= pow2_saturating(attempt) <= u32::MAX,
    decreases attempt,
{
    if attempt > 0 {
        lemma_pow2_saturating_bounded((attempt - 1) as u32);
    }
}

/// Computes the retry delay in milliseconds from a chosen jitter.
pub fn backoff_delay_ms(base_ms: u64, max_ms: u64, attempt: u32, jitter_ms: u64) -> (r: u64)
    ensures
        r == backoff_ms(base_ms, max_ms, attempt, jitter_ms),
{
    let factor = two_pow_saturating(attempt);
    let b = base_ms as u128;
    let f = factor as u128;
    assert(b * f <= 0xFFFF_FFFF_FFFF_FFFFu128 * 0xFFFF_FFFFu128) by (nonlinear_arith)
        requires
            b <= 0xFFFF_FFFF_FFFF_FFFFu128,
            f <= 0xFFFF_FFFFu128,
    ;
    let d: u128 = (base_ms as u128) * (factor as u128) + (jitter_ms as u128);
    if d <= max_ms as u128 {
        d as u64
    } else {
        max_ms
    }
}

/// A random number below `n` (`rand::rng().random_range(0..n)`); nothing
/// else is claimed of it.
#[verifier::external_body]
pub(crate) fn random_below(n: u64) -> (r: u64)
    requires
        n > 0,
    ensures
        r < n,
{
    rand::rng().random_range(0..n)
}

/// The wait before retry `attempt`: exponential in the attempt, with a random
/// jitter below the base delay, capped at the maximum delay.
pub fn calculate_delay(retry: &RetryConfig, attempt: u32) -> (r: Duration)
    requires
        retry.base_delay_ms > 0,
    ensures
        exists|jitter: u64|
            jitter < retry.base_delay_ms && r == millis_duration(
                backoff_ms(retry.base_delay_ms, retry.max_delay_ms, attempt, jitter) as u64,
            ),
{
    let jitter = random_below(retry.base_delay_ms);
    let ms = backoff_delay_ms(retry.base_delay_ms, retry.max_delay_ms, attempt, jitter);
    crate::config::millis(ms)
}

// ── OpenAI messages ──────────────────────────────────────────────────

/// One element of an OpenAI message's content array.
#[derive(Debug, Clone)]
pub enum OpenAiPart {
    /// `{ "type": "text", "text": .. }`
    Text(String),
    /// `{ "type": "image_url", "image_url": { "url": .. } }`
    ImageUrl(String),
}

/// The content of an OpenAI message: a plain string, or an array of parts.
#[derive(Debug, Clone)]
pub enum OpenAiContent {
    Text(String),
    Parts(Vec<OpenAiPart>),
}

/// An OpenAI chat message.
#[derive(Debug, Clone)]
pub struct OpenAiChatMessage {
    pub role: String,
    pub content: OpenAiContent,
}

/// The data URL of an inline image.
pub open spec fn data_url(mime_type: Seq<char>, data: Seq<char>) -> Seq<char> {
    "data:"@ + mime_type + ";base64,"@ + data
}

/// The content of an OpenAI part.
pub enum OpenAiPartModel {
    Text(Seq<char>),
    ImageUrl(Seq<char>),
}

/// A message part as an OpenAI content part.
pub open spec fn openai_part(p: PartModel) -> OpenAiPartModel {
    match p {
        PartModel::Text(t) => OpenAiPartModel::Text(t),
        PartModel::Image(m, d) => OpenAiPartModel::ImageUrl(data_url(m, d)),
    }
}

/// The content of OpenAI parts.
pub open spec fn openai_part_views(v: Seq<OpenAiPart>) -> Seq<OpenAiPartModel> {
    v.map_values(
        |p: OpenAiPart|
            match p {
                OpenAiPart::Text(t) => OpenAiPartModel::Text(t@),
                OpenAiPart::ImageUrl(u) => OpenAiPartModel::ImageUrl(u@),
            },
    )
}

fn image_url_of(mime_type: &str, data: &str) -> (r: String)
    ensures
        r@ == data_url(mime_type@, data@),
{
    let mut out: Vec<char> = Vec::new();
    append_str(&mut out, "data:");
    append_str(&mut out, mime_type);
    append_str(&mut out, ";base64,");
    append_str(&mut out, data);
    string_from_chars(out.as_slice())
}

/// A chat message in OpenAI's shape: a lone text part becomes a plain
/// string; otherwise every part becomes an array element, images as data
/// URLs.
pub fn to_openai_message(message: &ChatMessage) -> (r: OpenAiChatMessage)
    ensures
        r.role@ == message.role@,
        (message.parts@.len() == 1 && message.parts@[0] is Text) ==> (r.content matches OpenAiContent::Text(t)
            && message.parts@[0]@ == PartModel::Text(t@)),
        !(message.parts@.len() == 1 && message.parts@[0] is Text) ==> (r.content matches OpenAiContent::Parts(ps)
            && openai_part_views(ps@) == part_views(message.parts@).map_values(
            |p: PartModel| openai_part(p),
        )),
{
    if message.parts.len() == 1 {
        if let ChatPart::Text(t) = &message.parts[0] {
            return OpenAiChatMessage { role: message.role.clone(), content: OpenAiContent::Text(t.clone()) };
        }
    }
    let n = message.parts.len();
    let mut ps: Vec<OpenAiPart> = Vec::new();
    let mut i: usize = 0;
    while i < n
        invariant
            i <= n,
            n == message.parts@.len(),
            openai_part_views(ps@) == part_views(message.parts@).take(i as int).map_values(
                |p: PartModel| openai_part(p),
            ),
        decreases n - i,
    {
        let ghost before = ps@;
        let part = match &message.parts[i] {
            ChatPart::Text(t) => OpenAiPart::Text(t.clone()),
            ChatPart::Image { mime_type, data } => OpenAiPart::ImageUrl(
                image_url_of(mime_type.as_str(), data.as_str()),
            ),
        };
        ps.push(part);
        assert(openai_part_views(ps@) =~= openai_part_views(before).push(openai_part(message.parts@[i as int]@)));
        assert(part_views(message.parts@).take(i + 1).map_values(|p: PartModel| openai_part(p))
            =~= part_views(message.parts@).take(i as int).map_values(|p: PartModel| openai_part(p)).push(
            openai_part(message.parts@[i as int]@),
        ));
        i = i + 1;
    }
    assert(part_views(message.parts@).take(n as int) =~= part_views(message.parts@));
    OpenAiChatMessage { role: message.role.clone(), content: OpenAiContent::Parts(ps) }
}

// ── requests ─────────────────────────────────────────────────────────

/// The JSON schema a structured reply must follow.
#[derive(Debug, Clone, Copy, PartialEq, Eq, Structural)]
pub enum PracticeSchema {
    /// `{ "questions": [ { question, answer, knowledge_points } ] }`
    Generation,
    /// A practice plan with its items.
    Planning,
}

/// The settings of a chat client that shape its requests.
#[derive(Debug, Clone)]
pub struct ChatSettings {
    pub base_url: String,
    pub api_key: String,
    pub model: String,
    pub provider: ChatProvider,
    pub retry: RetryConfig,
    pub connection_close: bool,
    pub disable_compression: bool,
    pub thinking: Option<ThinkingConfig>,
    pub openai_no_system_role: bool,
    pub structured_json_output: bool,
    pub structured_json_schema: Option<PracticeSchema>,
    pub max_output_tokens: Option<u32>,
}

/// The schema for a role's structured replies, when it has one.
pub open spec fn role_schema(role: RoleKind) -> Option<PracticeSchema> {
    match role {
        RoleKind::PracticePlanning => Some(PracticeSchema::Planning),
        RoleKind::PracticeGeneration => Some(PracticeSchema::Generation),
        _ => None,
    }
}

/// What a failed HTTP request reports about itself: the `is_*` tests of the
/// transport error.
#[derive(Debug, Clone, Copy)]
pub struct TransportFailure {
    pub is_timeout: bool,
    pub is_connect: bool,
    pub is_body: bool,
    pub is_decode: bool,
    pub is_redirect: bool,
    pub is_request: bool,
}

/// The phase in which a request failed, for the logs: the first of timeout,
/// connect, body, decode, redirect and request that applies, else unknown.
pub open spec fn failure_phase(f: TransportFailure) -> Seq<char> {
    if f.is_timeout {
        "timeout"@
    } else if f.is_connect {
        "connect"@
    } else if f.is_body {
        "body"@
    } else if f.is_decode {
        "decode"@
    } else if f.is_redirect {
        "redirect"@
    } else if f.is_request {
        "request"@
    } else {
        "unknown"@
    }
}

/// Names the phase in which a request failed.
pub fn classify_transport_error(f: &TransportFailure) -> (r: &'static str)
    ensures
        r@ == failure_phase(*f),
{
    if f.is_timeout {
        "timeout"
    } else if f.is_connect {
        "connect"
    } else if f.is_body {
        "body"
    } else if f.is_decode {
        "decode"
    } else if f.is_redirect {
        "redirect"
    } else if f.is_request {
        "request"
    } else {
        "unknown"
    }
}

/// The name under which a chat provider is recorded.
pub open spec fn provider_name(p: ChatProvider) -> Seq<char> {
    match p {
        ChatProvider::Openai => "openai"@,
        ChatProvider::Google => "google"@,
    }
}

/// The name under which a chat provider is recorded.
pub fn chat_provider_name(p: ChatProvider) -> (r: &'static str)
    ensures
        r@ == provider_name(p),
{
    match p {
        ChatProvider::Openai => "openai",
        ChatProvider::Google => "google",
    }
}

/// Whether a resolved provider is the client's own endpoint: the same base
/// URL, API key and model.
pub open spec fn same_endpoint(s: ChatSettings, r: ResolvedModel) -> bool {
    s.base_url@ == r.base_url && s.api_key@ == r.api_key && s.model@ == r.model
}

/// Decides `same_endpoint`.
fn is_same_endpoint(s: &ChatSettings, r: &ResolvedProvider) -> (b: bool)
    ensures
        b == same_endpoint(*s, r@),
{
    same_text(s.base_url.as_str(), r.base_url.as_str()) && same_text(
        s.api_key.as_str(),
        r.api_key.as_str(),
    ) && same_text(s.model.as_str(), r.model.as_str())
}

/// The model and provider names recorded for a role: the client's own when
/// the role resolves to its endpoint, else the resolved provider's.
pub fn model_info_for_role(settings: &ChatSettings, resolved: &ResolvedProvider) -> (r: (
    String,
    &'static str,
))
    ensures
        same_endpoint(*settings, resolved@) ==> r.0@ == settings.model@ && r.1@ == provider_name(
            settings.provider,
        ),
        !same_endpoint(*settings, resolved@) ==> r.0@ == resolved.model@ && r.1@ == provider_name(
            resolved.provider,
        ),
{
    if is_same_endpoint(settings, resolved) {
        (settings.model.clone(), chat_provider_name(settings.provider))
    } else {
        (resolved.model.clone(), chat_provider_name(resolved.provider))
    }
}

/// The settings a client uses to answer a role. On its own endpoint it keeps
/// its connection and takes the role's thinking, system-role, output and
/// token settings, with the practice schema when the role asks for
/// structured output; on another endpoint it also takes that endpoint, and
/// structured output once switched on stays on.
pub fn role_settings(settings: ChatSettings, resolved: ResolvedProvider, role: RoleKind) -> (r:
    ChatSettings)
    ensures
        r.retry == settings.retry,
        r.connection_close == settings.connection_close,
        r.disable_compression == settings.disable_compression,
        thinking_opt_view(r.thinking) == resolved@.thinking,
        r.openai_no_system_role == resolved.openai_no_system_role,
        r.max_output_tokens == resolved.max_output_tokens,
        same_endpoint(settings, resolved@) ==> {
            &&& r.base_url@ == settings.base_url@
            &&& r.api_key@ == settings.api_key@
            &&& r.model@ == settings.model@
            &&& r.provider == settings.provider
            &&& r.structured_json_output == resolved.structured_json_output
            &&& r.structured_json_schema == (if resolved.structured_json_output {
                role_schema(role)
            } else {
                None
            })
        },
        !same_endpoint(settings, resolved@) ==> {
            &&& r.base_url@ == resolved.base_url@
            &&& r.api_key@ == resolved.api_key@
            &&& r.model@ == resolved.model@
            &&& r.provider == resolved.provider
            &&& r.structured_json_output == (settings.structured_json_output
                || resolved.structured_json_output)
            &&& r.structured_json_schema == (if resolved.structured_json_output && role_schema(
                role,
            ) is Some {
                role_schema(role)
            } else {
                settings.structured_json_schema
            })
        },
{
    let same = is_same_endpoint(&settings, &resolved);
    let schema = match role {
        RoleKind::PracticePlanning => Some(PracticeSchema::Planning),
        RoleKind::PracticeGeneration => Some(PracticeSchema::Generation),
        _ => None,
    };
    let structured = resolved.structured_json_output;
    if same {
        ChatSettings {
            base_url: settings.base_url,
            api_key: settings.api_key,
            model: settings.model,
            provider: settings.provider,
            retry: settings.retry,
            connection_close: settings.connection_close,
            disable_compression: settings.disable_compression,
            thinking: resolved.thinking,
            openai_no_system_role: resolved.openai_no_system_role,
            structured_json_output: structured,
            structured_json_schema: if structured {
                schema
            } else {
                None
            },
            max_output_tokens: resolved.max_output_tokens,
        }
    } else {
        let keep_schema = settings.structured_json_schema;
        ChatSettings {
            base_url: resolved.base_url,
            api_key: resolved.api_key,
            model: resolved.model,
            provider: resolved.provider,
            retry: settings.retry,
            connection_close: settings.connection_close,
            disable_compression: settings.disable_compression,
            thinking: resolved.thinking,
            openai_no_system_role: resolved.openai_no_system_role,
            structured_json_output: settings.structured_json_output || structured,
            structured_json_schema: if structured && schema.is_some() {
                schema
            } else {
                keep_schema
            },
            max_output_tokens: resolved.max_output_tokens,
        }
    }
}

/// What an OpenAI chat request carries.
#[derive(Debug, Clone)]
pub struct OpenAiRequestPlan {
    pub url: String,
    pub model: String,
    pub messages: Vec<ChatMessage>,
    pub max_tokens: u32,
    /// `thinking.type`: "enabled" or "disabled", when set.
    pub thinking_type: Option<&'static str>,
    pub reasoning_effort: Option<String>,
    /// Whether `response_format: { "type": "json_object" }` is sent.
    pub json_object_format: bool,
    /// The `Authorization` header.
    pub authorization: String,
    /// Whether `Connection: close` is sent.
    pub connection_close: bool,
    /// Whether `Accept-Encoding: identity` is sent.
    pub identity_encoding: bool,
}

/// The thinking type sent for the controls, if any.
pub open spec fn thinking_type_of(t: Option<ThinkingConfig>) -> Option<Seq<char>> {
    match t {
        Some(tc) => match tc.thinking_enabled {
            Some(true) => Some("enabled"@),
            Some(false) => Some("disabled"@),
            None => None,
        },
        None => None,
    }
}

/// The reasoning effort sent for the controls, if any.
pub open spec fn effort_of(t: Option<ThinkingConfig>) -> Option<Seq<char>> {
    match t {
        Some(tc) => match tc.reasoning_effort {
            Some(v) => Some(canonical_effort(v@)),
            None => None,
        },
        None => None,
    }
}

/// Plans an OpenAI chat request: the endpoint, the messages (system role
/// folded in when the provider rejects it), 4096 tokens unless configured,
/// the thinking controls, JSON output and the headers.
pub fn plan_openai_request(settings: &ChatSettings, messages: &[ChatMessage]) -> (p: OpenAiRequestPlan)
    ensures
        p.url@ == crate::config::chat_url(settings.base_url@),
        p.model@ == settings.model@,
        message_views(p.messages@) == if settings.openai_no_system_role {
            collapsed_messages(message_views(messages@))
        } else {
            message_views(messages@)
        },
        p.max_tokens == match settings.max_output_tokens {
            Some(m) => m,
            None => 4096,
        },
        (match p.thinking_type {
            Some(t) => Some(t@),
            None => None,
        }) == thinking_type_of(settings.thinking),
        crate::config::opt_view(p.reasoning_effort) == effort_of(settings.thinking),
        p.json_object_format == settings.structured_json_output,
        p.authorization@ == "Bearer "@ + settings.api_key@,
        p.connection_close == settings.connection_close,
        p.identity_encoding == settings.disable_compression,
{
    let base = trim_end_matches_char(settings.base_url.as_str(), '/');
    let mut u = chars_of(base.as_str());
    append_str(&mut u, "/chat/completions");
    let msgs = if settings.openai_no_system_role {
        collapse_system_messages(messages)
    } else {
        copy_messages(messages)
    };
    let (thinking_type, reasoning_effort) = match &settings.thinking {
        Some(tc) => {
            let tt: Option<&'static str> = match tc.thinking_enabled {
                Some(true) => Some("enabled"),
                Some(false) => Some("disabled"),
                None => None,
            };
            (tt, tc.normalised_reasoning_effort())
        },
        None => (None, None),
    };
    let mut auth: Vec<char> = Vec::new();
    append_str(&mut auth, "Bearer ");
    append_str(&mut auth, settings.api_key.as_str());
    OpenAiRequestPlan {
        url: string_from_chars(u.as_slice()),
        model: settings.model.clone(),
        messages: msgs,
        max_tokens: match settings.max_output_tokens {
            Some(m) => m,
            None => 4096,
        },
        thinking_type,
        reasoning_effort,
        json_object_format: settings.structured_json_output,
        authorization: string_from_chars(auth.as_slice()),
        connection_close: settings.connection_close,
        identity_encoding: settings.disable_compression,
    }
}

/// What a Google `generateContent` request carries; the temperature is set
/// by the caller.
pub struct GoogleRequestPlan {
    pub url: String,
    /// The parts of all system messages, for `systemInstruction`.
    pub system_parts: Vec<ChatPart>,
    /// The other messages, with Google's role names.
    pub contents: Vec<(&'static str, Vec<ChatPart>)>,
    pub max_output_tokens: u32,
    /// Whether `responseMimeType: "application/json"` is sent.
    pub json_mime_type: bool,
    /// The response schema sent with it, if any.
    pub schema: Option<PracticeSchema>,
    /// The `x-goog-api-key` header.
    pub api_key: String,
    pub connection_close: bool,
    pub identity_encoding: bool,
}

/// The `generateContent` endpoint of a model.
pub open spec fn google_url(base: Seq<char>, model: Seq<char>) -> Seq<char> {
    trim_end_char(base, '/') + "/v1beta/models/"@ + model + ":generateContent"@
}

/// The parts of the system messages among the first `n`, in order.
pub open spec fn google_system_parts(msgs: Seq<MessageModel>, n: int) -> Seq<PartModel>
    decreases n,
{
    if n <= 0 {
        Seq::empty()
    } else if msgs[n - 1].role == "system"@ {
        google_system_parts(msgs, n - 1) + msgs[n - 1].parts
    } else {
        google_system_parts(msgs, n - 1)
    }
}

/// The other messages among the first `n` with Google's role names.
pub open spec fn google_contents(msgs: Seq<MessageModel>, n: int) -> Seq<(Seq<char>, Seq<PartModel>)>
    decreases n,
{
    if n <= 0 {
        Seq::empty()
    } else if msgs[n - 1].role == "system"@ {
        google_contents(msgs, n - 1)
    } else {
        google_contents(msgs, n - 1).push((google_role(msgs[n - 1].role), msgs[n - 1].parts))
    }
}

/// The contents of a planned request's messages.
pub open spec fn content_views(v: Seq<(&'static str, Vec<ChatPart>)>) -> Seq<(Seq<char>, Seq<PartModel>)> {
    v.map_values(|c: (&'static str, Vec<ChatPart>)| (c.0@, part_views(c.1@)))
}

/// Plans a Google chat request: the endpoint, the system parts apart, the
/// other messages with Google's roles, 4096 tokens unless configured, JSON
/// output with its schema when structured, and the headers.
pub fn plan_google_request(settings: &ChatSettings, messages: &[ChatMessage]) -> (p: GoogleRequestPlan)
    ensures
        p.url@ == google_url(settings.base_url@, settings.model@),
        part_views(p.system_parts@) == google_system_parts(
            message_views(messages@),
            messages@.len() as int,
        ),
        content_views(p.contents@) == google_contents(message_views(messages@), messages@.len() as int),
        p.max_output_tokens == match settings.max_output_tokens {
            Some(m) => m,
            None => 4096,
        },
        p.json_mime_type == settings.structured_json_output,
        p.schema == if settings.structured_json_output {
            settings.structured_json_schema
        } else {
            None
        },
        p.api_key@ == settings.api_key@,
        p.connection_close == settings.connection_close,
        p.identity_encoding == settings.disable_compression,
{
    let base = trim_end_matches_char(settings.base_url.as_str(), '/');
    let mut u = chars_of(base.as_str());
    append_str(&mut u, "/v1beta/models/");
    append_str(&mut u, settings.model.as_str());
    append_str(&mut u, ":generateContent");
    let ghost mv = message_views(messages@);
    let n = messages.len();
    let mut system_parts: Vec<ChatPart> = Vec::new();
    let mut contents: Vec<(&'static str, Vec<ChatPart>)> = Vec::new();
    let mut i: usize = 0;
    while i < n
        invariant
            i <= n,
            n == messages@.len(),
            mv == message_views(messages@),
            part_views(system_parts@) == google_system_parts(mv, i as int),
            content_views(contents@) == google_contents(mv, i as int),
        decreases n - i,
    {
        let m = &messages[i];
        assert(mv[i as int] == m@);
        if same_text(m.role.as_str(), "system") {
            let mut ps = copy_parts(&m.parts);
            let ghost before = system_parts@;
            system_parts.append(&mut ps);
            assert(part_views(system_parts@) =~= part_views(before) + m@.parts);
        } else {
            let role = map_google_role(m.role.as_str());
            let ps = copy_parts(&m.parts);
            let ghost before = contents@;
            contents.push((role, ps));
            assert(content_views(contents@) =~= content_views(before).push((google_role(m@.role), m@.parts)));
        }
        i = i + 1;
    }
    GoogleRequestPlan {
        url: string_from_chars(u.as_slice()),
        system_parts,
        contents,
        max_output_tokens: match settings.max_output_tokens {
            Some(m) => m,
            None => 4096,
        },
        json_mime_type: settings.structured_json_output,
        schema: if settings.structured_json_output {
            settings.structured_json_schema
        } else {
            None
        },
        api_key: settings.api_key.clone(),
        connection_close: settings.connection_close,
        identity_encoding: settings.disable_compression,
    }
}

} // verus!
