//! Extraction, repair and diagnosis of the JSON payloads that the language
//! model returns.
//!
//! Every function here works on the characters of the model's reply. What
//! `serde_json` decides (whether a text is JSON, what its error message says)
//! comes in through the small trusted wrappers at the top of this file.
use vstd::prelude::*;
use crate::practice::planner::{
    PracticeDependencyMode, PracticeImageRole, PracticeImageSpec, PracticeImageType,
};
use crate::text::{
    append_decimal, append_joined, append_str, begins_with, chars_of, contains_seq, copy_range,
    decimal, ellipsize, ellipsized, find, find_char, find_char_from, find_chars, find_chars_from,
    find_from, join, matches_at, occurs_at, rfind, rfind_char, rfind_upto, starts_with_char, string_from_chars, trim,
    trim_chars, views, append_joined_strs, byte_len, str_views, same_text,
};

verus! {

// ── what serde_json computes ─────────────────────────────────────────

/// The message of the error that `serde_json::from_str::<serde_json::Value>`
/// reports for `s`, or `None` when `s` is a JSON value.
pub uninterp spec fn json_value_error(s: Seq<char>) -> Option<Seq<char>>;

/// The message of the error that `serde_json::from_str::<Vec<serde_json::Value>>`
/// reports for `s`, or `None` when `s` is a JSON array.
pub uninterp spec fn json_array_error(s: Seq<char>) -> Option<Seq<char>>;

/// When `s` is a JSON value with an array under the key `key`, that array as
/// `serde_json` writes it back out; otherwise `None`.
pub uninterp spec fn json_array_at(s: Seq<char>, key: Seq<char>) -> Option<Seq<char>>;

/// Whether `serde_json` accepts `s` as a JSON value.
pub open spec fn json_value_parses(s: Seq<char>) -> bool {
    json_value_error(s) is None
}

/// Calls `serde_json::from_str::<serde_json::Value>` on `s` and hands back the
/// error's `Display` text, if there is one. The contract names the result and
/// claims nothing else of it.
#[verifier::external_body]
fn json_value_error_message(s: &str) -> (r: Option<String>)
    ensures
        r matches Some(m) ==> json_value_error(s@) == Some(m@),
        r is None ==> json_value_error(s@) is None,
{
    match serde_json::from_str::<serde_json::Value>(s) {
        Ok(_) => None,
        Err(e) => Some(e.to_string()),
    }
}

/// Calls `serde_json::from_str::<Vec<serde_json::Value>>` on `s` and hands back
/// the error's `Display` text, if there is one.
#[verifier::external_body]
fn json_array_error_message(s: &str) -> (r: Option<String>)
    ensures
        r matches Some(m) ==> json_array_error(s@) == Some(m@),
        r is None ==> json_array_error(s@) is None,
{
    match serde_json::from_str::<Vec<serde_json::Value>>(s) {
        Ok(_) => None,
        Err(e) => Some(e.to_string()),
    }
}

/// Parses `s` with `serde_json::from_str::<serde_json::Value>`, looks up `key`
/// with `Value::get` and, when that is an array, writes it back out with
/// `Value::to_string`.
#[verifier::external_body]
fn json_array_at_key(s: &str, key: &str) -> (r: Option<String>)
    ensures
        r matches Some(q) ==> json_array_at(s@, key@) == Some(q@),
        r is None ==> json_array_at(s@, key@) is None,
{
    match serde_json::from_str::<serde_json::Value>(s) {
        Ok(v) => match v.get(key) {
            Some(q @ serde_json::Value::Array(_)) => Some(q.to_string()),
            _ => None,
        },
        Err(_) => None,
    }
}

/// Whether `serde_json` accepts `s` as a JSON value.
pub fn parses_as_json_value(s: &str) -> (b: bool)
    ensures
        b == json_value_parses(s@),
{
    json_value_error_message(s).is_none()
}

// ── short texts for messages ─────────────────────────────────────────

/// Cut `s` to at most `max_chars` characters for an error or log message,
/// appending "…" when something was cut.
pub fn truncate_for_error(s: &str, max_chars: usize) -> (r: String)
    ensures
        r@ == ellipsized(s@, max_chars as nat),
{
    ellipsize(s, max_chars)
}

/// `s` itself when it has at most `max` characters, otherwise "…" followed by
/// its last `max` characters.
pub open spec fn tail_ellipsized(s: Seq<char>, max: nat) -> Seq<char> {
    if s.len() <= max {
        s
    } else {
        seq!['…'] + s.skip(s.len() - max)
    }
}

/// The last `max_chars` characters of `s`, marked with a leading "…" when
/// something was cut.
pub fn tail_chars(s: &str, max_chars: usize) -> (r: String)
    ensures
        r@ == tail_ellipsized(s@, max_chars as nat),
{
    let v = chars_of(s);
    if v.len() <= max_chars {
        string_from_chars(v.as_slice())
    } else {
        let mut out: Vec<char> = Vec::new();
        out.push('…');
        let tail = copy_range(v.as_slice(), v.len() - max_chars, v.len());
        out.extend_from_slice(tail.as_slice());
        assert(out@ =~= seq!['…'] + s@.skip(s@.len() - max_chars));
        string_from_chars(out.as_slice())
    }
}

// ── locating the JSON in a reply ─────────────────────────────────────

/// The trimmed text between the first "```json" and the next "```" after it.
pub open spec fn json_block(raw: Seq<char>) -> Option<Seq<char>> {
    match find(raw, "```json"@) {
        None => None,
        Some(i) => {
            let js = i + "```json"@.len();
            match find_from(raw, "```"@, js) {
                None => None,
                Some(e) => Some(trim(raw.subrange(js, e))),
            }
        },
    }
}

/// The content of the first fenced "```json" block of `raw`, trimmed.
pub fn extract_json_block(raw: &str) -> (r: Option<String>)
    ensures
        r matches Some(j) ==> json_block(raw@) == Some(j@),
        r is None ==> json_block(raw@) is None,
{
    let v = chars_of(raw);
    let start_marker = chars_of("```json");
    let end_marker = chars_of("```");
    let start_idx = match find_chars(v.as_slice(), start_marker.as_slice()) {
        Some(i) => i,
        None => return None,
    };
    let n = v.len();
    assert(start_idx + start_marker@.len() <= n);
    let json_start = start_idx + start_marker.len();
    let json_end = match find_chars_from(v.as_slice(), end_marker.as_slice(), json_start) {
        Some(e) => e,
        None => return None,
    };
    let inner = copy_range(v.as_slice(), json_start, json_end);
    let t = trim_chars(inner.as_slice());
    Some(string_from_chars(t.as_slice()))
}

/// `raw[s..=e]` for the first `open` and the last `close`, when the close
/// comes after the open.
pub open spec fn delimited_span(raw: Seq<char>, open: char, close: char) -> Option<Seq<char>> {
    match (find(raw, seq![open]), rfind(raw, seq![close])) {
        (Some(s), Some(e)) => if e > s {
            Some(raw.subrange(s, e + 1))
        } else {
            None
        },
        _ => None,
    }
}

proof fn lemma_single_occurs(s: Seq<char>, c: char, j: int)
    ensures
        occurs_at(s, seq![c], j) <==> (0 <= j < s.len() && s[j] == c),
{
    if 0 <= j < s.len() {
        if s[j] == c {
            assert(s.subrange(j, j + 1) =~= seq![c]);
        } else {
            assert(s.subrange(j, j + 1)[0] == s[j]);
        }
    }
}

proof fn lemma_find_char_from(s: Seq<char>, c: char, k: int)
    requires
        0 <= k,
    ensures
        find_from(s, seq![c], k) matches Some(i) ==> k <= i < s.len() && s[i] == c && forall|j: int|
            k <= j < i ==> s[j] != c,
        find_from(s, seq![c], k) is None ==> forall|j: int| k <= j < s.len() ==> s[j] != c,
    decreases s.len() - k,
{
    lemma_single_occurs(s, c, k);
    if k + 1 <= s.len() && !occurs_at(s, seq![c], k) {
        lemma_find_char_from(s, c, k + 1);
    }
}

proof fn lemma_rfind_char_upto(s: Seq<char>, c: char, e: int)
    requires
        e < s.len(),
    ensures
        rfind_upto(s, seq![c], e) matches Some(i) ==> 0 <= i <= e && s[i] == c && forall|j: int|
            i < j <= e ==> s[j] != c,
        rfind_upto(s, seq![c], e) is None ==> forall|j: int| 0 <= j <= e ==> s[j] != c,
    decreases e + 1,
{
    if e >= 0 {
        lemma_single_occurs(s, c, e);
        if !occurs_at(s, seq![c], e) {
            lemma_rfind_char_upto(s, c, e - 1);
        }
    }
}

/// The span taken from a reply runs from the first `open` to the last `close`:
/// no `open` stands before its start and no `close` after its end. There is a
/// span exactly when some `open` comes before some `close`.
pub proof fn delimited_span_is_widest(raw: Seq<char>, open: char, close: char)
    ensures
        delimited_span(raw, open, close) matches Some(x) ==> exists|s: int, e: int|
            #![trigger raw[s], raw[e]]
            0 <= s < e < raw.len() && raw[s] == open && raw[e] == close && x == raw.subrange(s, e + 1)
                && (forall|j: int| 0 <= j < s ==> raw[j] != open) && (forall|j: int|
                e < j < raw.len() ==> raw[j] != close),
        delimited_span(raw, open, close) is None ==> forall|s: int, e: int|
            #![trigger raw[s], raw[e]]
            0 <= s < e < raw.len() && raw[s] == open ==> raw[e] != close,
{
    lemma_find_char_from(raw, open, 0);
    lemma_rfind_char_upto(raw, close, raw.len() - 1);
    assert(rfind(raw, seq![close]) == rfind_upto(raw, seq![close], raw.len() - 1));
    match (find(raw, seq![open]), rfind(raw, seq![close])) {
        (Some(s), Some(e)) => {
            if e > s {
                assert(raw[s] == open && raw[e] == close);
            }
        },
        _ => {},
    }
}

fn delimited(v: &[char], open: char, close: char) -> (r: Option<Vec<char>>)
    ensures
        r matches Some(x) ==> delimited_span(v@, open, close) == Some(x@),
        r is None ==> delimited_span(v@, open, close) is None,
{
    let n = v.len();
    match (find_char(v, open), rfind_char(v, close)) {
        (Some(s), Some(e)) => {
            if e > s {
                Some(copy_range(v, s, e + 1))
            } else {
                None
            }
        },
        _ => None,
    }
}

/// The bare JSON in a reply that has no fenced block: the trimmed reply when
/// it starts with `[` or `{`, else the widest `[..]` span, else the widest
/// `{..}` span, else the reply itself.
pub open spec fn bare_json(raw: Seq<char>) -> Seq<char> {
    let t = trim(raw);
    if starts_with_char(t, '[') || starts_with_char(t, '{') {
        t
    } else if delimited_span(raw, '[', ']') is Some {
        delimited_span(raw, '[', ']')->0
    } else if delimited_span(raw, '{', '}') is Some {
        delimited_span(raw, '{', '}')->0
    } else {
        raw
    }
}

/// Extracts bare JSON from a reply without a fenced block.
pub fn extract_bare_json(raw: &str) -> (r: String)
    ensures
        r@ == bare_json(raw@),
{
    let v = chars_of(raw);
    let t = trim_chars(v.as_slice());
    if begins_with(t.as_slice(), '[') || begins_with(t.as_slice(), '{') {
        return string_from_chars(t.as_slice());
    }
    if let Some(x) = delimited(v.as_slice(), '[', ']') {
        return string_from_chars(x.as_slice());
    }
    if let Some(x) = delimited(v.as_slice(), '{', '}') {
        return string_from_chars(x.as_slice());
    }
    string_from_chars(v.as_slice())
}

/// The JSON text the model meant: a fenced block if there is one, else bare JSON.
pub open spec fn llm_json_payload(raw: Seq<char>) -> Seq<char> {
    match json_block(raw) {
        Some(j) => j,
        None => bare_json(raw),
    }
}

/// The JSON payload of a reply: its fenced block, or else its bare JSON.
pub fn extract_llm_json_payload(raw: &str) -> (r: String)
    ensures
        r@ == llm_json_payload(raw@),
{
    match extract_json_block(raw) {
        Some(j) => j,
        None => extract_bare_json(raw),
    }
}

/// The message when no JSON object can be found in a reply.
pub open spec fn no_json_message(raw: Seq<char>) -> Seq<char> {
    "无法从 LLM 输出中提取 JSON。原始内容前500字符: "@ + ellipsized(raw, 500)
}

/// The JSON object of a reply: its fenced block; else the trimmed reply when
/// it starts with `{` and parses; else the widest `{..}` span when it parses.
pub open spec fn json_object_payload(raw: Seq<char>) -> Result<Seq<char>, Seq<char>> {
    let t = trim(raw);
    if json_block(raw) is Some {
        Ok(json_block(raw)->0)
    } else if starts_with_char(t, '{') && json_value_parses(t) {
        Ok(t)
    } else if delimited_span(raw, '{', '}') is Some && json_value_parses(
        delimited_span(raw, '{', '}')->0,
    ) {
        Ok(delimited_span(raw, '{', '}')->0)
    } else {
        Err(no_json_message(raw))
    }
}

/// Finds the JSON object in a model reply (fenced block, bare object, or the
/// widest `{..}` span that parses); the error carries the start of the reply.
pub fn extract_json_from_llm_output(raw: &str) -> (r: Result<String, String>)
    ensures
        r matches Ok(j) ==> json_object_payload(raw@) == Ok::<Seq<char>, Seq<char>>(j@),
        r matches Err(m) ==> json_object_payload(raw@) == Err::<Seq<char>, Seq<char>>(m@),
{
    if let Some(j) = extract_json_block(raw) {
        return Ok(j);
    }
    let v = chars_of(raw);
    let t = trim_chars(v.as_slice());
    if begins_with(t.as_slice(), '{') {
        let ts = string_from_chars(t.as_slice());
        if parses_as_json_value(ts.as_str()) {
            return Ok(ts);
        }
    }
    if let Some(x) = delimited(v.as_slice(), '{', '}') {
        let xs = string_from_chars(x.as_slice());
        if parses_as_json_value(xs.as_str()) {
            return Ok(xs);
        }
    }
    let mut msg: Vec<char> = Vec::new();
    append_str(&mut msg, "无法从 LLM 输出中提取 JSON。原始内容前500字符: ");
    let cut = truncate_for_error(raw, 500);
    append_str(&mut msg, cut.as_str());
    Err(string_from_chars(msg.as_slice()))
}

/// The markdown before the fence of a reply that has a fenced JSON block.
pub open spec fn markdown_before_fence(raw: Seq<char>) -> Seq<char> {
    match find(raw, "```json"@) {
        Some(p) => raw.take(p),
        None => match find(raw, "```"@) {
            Some(p) => raw.take(p),
            None => raw,
        },
    }
}

/// The message when a reply holds neither a fenced block nor a trailing object.
pub open spec fn no_markdown_json_message(raw: Seq<char>) -> Seq<char> {
    "无法从 LLM 查应中提取 JSON 内容。原始响应前500字符: "@ + ellipsized(raw, 500)
}

/// A reply split into the markdown question and the JSON analysis: the fenced
/// block and what precedes it, or else the span from the last `{` to the last
/// `}` when it parses, and what precedes that.
pub open spec fn markdown_and_json(raw: Seq<char>) -> Result<(Seq<char>, Seq<char>), Seq<char>> {
    match json_block(raw) {
        Some(j) => Ok((markdown_before_fence(raw), j)),
        None => match (rfind(raw, seq!['{']), rfind(raw, seq!['}'])) {
            (Some(s), Some(e)) => if e > s && json_value_parses(raw.subrange(s, e + 1)) {
                Ok((raw.take(s), raw.subrange(s, e + 1)))
            } else {
                Err(no_markdown_json_message(raw))
            },
            _ => Err(no_markdown_json_message(raw)),
        },
    }
}

/// Splits a reply into its markdown part and its JSON part.
pub fn extract_markdown_and_json(raw: &str) -> (r: Result<(String, String), String>)
    ensures
        r matches Ok(p) ==> markdown_and_json(raw@) == Ok::<(Seq<char>, Seq<char>), Seq<char>>(
            (p.0@, p.1@),
        ),
        r matches Err(m) ==> markdown_and_json(raw@) == Err::<(Seq<char>, Seq<char>), Seq<char>>(
            m@,
        ),
{
    let v = chars_of(raw);
    if let Some(j) = extract_json_block(raw) {
        let fence_json = chars_of("```json");
        let fence = chars_of("```");
        let md = match find_chars(v.as_slice(), fence_json.as_slice()) {
            Some(p) => copy_range(v.as_slice(), 0, p),
            None => match find_chars(v.as_slice(), fence.as_slice()) {
                Some(p) => copy_range(v.as_slice(), 0, p),
                None => copy_range(v.as_slice(), 0, v.len()),
            },
        };
        assert(v@.subrange(0, v@.len() as int) =~= v@);
        return Ok((string_from_chars(md.as_slice()), j));
    }
    let n = v.len();
    match (rfind_char(v.as_slice(), '{'), rfind_char(v.as_slice(), '}')) {
        (Some(s), Some(e)) => {
            if e > s {
                let part = copy_range(v.as_slice(), s, e + 1);
                let ps = string_from_chars(part.as_slice());
                if parses_as_json_value(ps.as_str()) {
                    let md = copy_range(v.as_slice(), 0, s);
                    return Ok((string_from_chars(md.as_slice()), ps));
                }
            }
        },
        _ => {},
    }
    let mut msg: Vec<char> = Vec::new();
    append_str(&mut msg, "无法从 LLM 查应中提取 JSON 内容。原始响应前500字符: ");
    let cut = truncate_for_error(raw, 500);
    append_str(&mut msg, cut.as_str());
    Err(string_from_chars(msg.as_slice()))
}

// ── repairing a truncated array ──────────────────────────────────────

/// Where a string-aware scan for complete top-level `{..}` objects stands
/// after a prefix of the text.
pub struct ObjectScan {
    pub depth: nat,
    pub in_string: bool,
    pub escaped: bool,
    pub start: Option<int>,
    pub objects: Seq<Seq<char>>,
}

/// The scan state after reading `s[i]` in state `st`.
pub open spec fn object_step(st: ObjectScan, s: Seq<char>, i: int) -> ObjectScan {
    let c = s[i];
    if st.escaped {
        ObjectScan { depth: st.depth, in_string: st.in_string, escaped: false, start: st.start, objects: st.objects }
    } else if st.in_string {
        if c == '\\' {
            ObjectScan { depth: st.depth, in_string: true, escaped: true, start: st.start, objects: st.objects }
        } else if c == '"' {
            ObjectScan { depth: st.depth, in_string: false, escaped: false, start: st.start, objects: st.objects }
        } else {
            st
        }
    } else if c == '"' {
        ObjectScan { depth: st.depth, in_string: true, escaped: false, start: st.start, objects: st.objects }
    } else if c == '{' {
        ObjectScan {
            depth: st.depth + 1,
            in_string: false,
            escaped: false,
            start: if st.depth == 0 { Some(i) } else { st.start },
            objects: st.objects,
        }
    } else if c == '}' && st.depth > 0 {
        if st.depth == 1 && st.start is Some {
            ObjectScan {
                depth: 0,
                in_string: false,
                escaped: false,
                start: None,
                objects: st.objects.push(s.subrange(st.start->0, i + 1)),
            }
        } else {
            ObjectScan { depth: (st.depth - 1) as nat, in_string: false, escaped: false, start: st.start, objects: st.objects }
        }
    } else {
        st
    }
}

/// The scan state after the first `n` characters of `s`.
pub open spec fn object_scan(s: Seq<char>, n: int) -> ObjectScan
    decreases n,
{
    if n <= 0 {
        ObjectScan { depth: 0, in_string: false, escaped: false, start: None, objects: Seq::empty() }
    } else {
        object_step(object_scan(s, n - 1), s, n - 1)
    }
}

/// Every complete top-level `{..}` object of `s`, in order, found by a scan
/// that skips braces inside string literals.
pub open spec fn top_level_objects(s: Seq<char>) -> Seq<Seq<char>> {
    object_scan(s, s.len() as int).objects
}

/// The texts of `objs` that `serde_json` accepts, in order.
pub open spec fn keep_parsable(objs: Seq<Seq<char>>) -> Seq<Seq<char>>
    decreases objs.len(),
{
    if objs.len() == 0 {
        objs
    } else if json_value_parses(objs.last()) {
        keep_parsable(objs.drop_last()).push(objs.last())
    } else {
        keep_parsable(objs.drop_last())
    }
}

/// `t` without a leading `[`.
pub open spec fn array_body(t: Seq<char>) -> Seq<char> {
    if starts_with_char(t, '[') {
        t.drop_first()
    } else {
        t
    }
}

/// Where a string-aware scan of open brackets stands.
pub struct BracketScan {
    pub stack: Seq<char>,
    pub in_string: bool,
    pub escaped: bool,
}

/// The bracket scan state after reading `c` in state `st`: an opening `{` or
/// `[` is pushed, a closing one pops its match from the top.
pub open spec fn bracket_step(st: BracketScan, c: char) -> BracketScan {
    if st.escaped {
        BracketScan { stack: st.stack, in_string: st.in_string, escaped: false }
    } else if st.in_string {
        if c == '\\' {
            BracketScan { stack: st.stack, in_string: true, escaped: true }
        } else if c == '"' {
            BracketScan { stack: st.stack, in_string: false, escaped: false }
        } else {
            st
        }
    } else if c == '"' {
        BracketScan { stack: st.stack, in_string: true, escaped: false }
    } else if c == '{' || c == '[' {
        BracketScan { stack: st.stack.push(c), in_string: false, escaped: false }
    } else if (c == '}' && st.stack.len() > 0 && st.stack.last() == '{') || (c == ']'
        && st.stack.len() > 0 && st.stack.last() == '[') {
        BracketScan { stack: st.stack.drop_last(), in_string: false, escaped: false }
    } else {
        st
    }
}

/// The bracket scan state after the first `n` characters of `s`.
pub open spec fn bracket_scan(s: Seq<char>, n: int) -> BracketScan
    decreases n,
{
    if n <= 0 {
        BracketScan { stack: Seq::empty(), in_string: false, escaped: false }
    } else {
        bracket_step(bracket_scan(s, n - 1), s[n - 1])
    }
}

/// The closing bracket for an opening one.
pub open spec fn closer(c: char) -> char {
    if c == '{' {
        '}'
    } else {
        ']'
    }
}

/// The closers for the open brackets on `stack`, innermost first.
pub open spec fn closers(stack: Seq<char>) -> Seq<char>
    decreases stack.len(),
{
    if stack.len() == 0 {
        Seq::empty()
    } else {
        seq![closer(stack.last())] + closers(stack.drop_last())
    }
}

/// `t` completed: an unterminated string gets its `"`, then every open bracket
/// is closed in reverse order of opening.
pub open spec fn closed_json(t: Seq<char>) -> Seq<char> {
    let b = bracket_scan(t, t.len() as int);
    t + (if b.in_string {
        seq!['"']
    } else {
        Seq::empty()
    }) + closers(b.stack)
}

proof fn lemma_closers_innermost_first(stack: Seq<char>)
    ensures
        closers(stack).len() == stack.len(),
        forall|i: int|
            0 <= i < stack.len() ==> #[trigger] closers(stack)[i] == closer(stack[stack.len() - 1 - i]),
    decreases stack.len(),
{
    if stack.len() > 0 {
        let rest = stack.drop_last();
        lemma_closers_innermost_first(rest);
        assert forall|i: int| 0 <= i < stack.len() implies #[trigger] closers(stack)[i] == closer(
            stack[stack.len() - 1 - i],
        ) by {
            if i > 0 {
                assert(closers(stack)[i] == closers(rest)[i - 1]);
                assert(rest[rest.len() - 1 - (i - 1)] == stack[stack.len() - 1 - i]);
            }
        }
    }
}

/// Completing a truncated text keeps the text, closes an open string with
/// one `"`, and then closes every bracket still open innermost first: the
/// `i`-th appended closer answers the `i`-th opener counted from the most
/// recently opened one, `}` for `{` and `]` for `[`.
pub proof fn truncated_json_closes_innermost_first(t: Seq<char>)
    ensures
        ({
            let b = bracket_scan(t, t.len() as int);
            let q: int = if b.in_string { 1 } else { 0 };
            let r = closed_json(t);
            &&& r.len() == t.len() + q + b.stack.len()
            &&& r.subrange(0, t.len() as int) == t
            &&& b.in_string ==> r[t.len() as int] == '"'
            &&& forall|i: int|
                0 <= i < b.stack.len() ==> #[trigger] r[t.len() + q + i] == (if b.stack[b.stack.len() - 1
                    - i] == '{' {
                    '}'
                } else {
                    ']'
                })
        }),
{
    let b = bracket_scan(t, t.len() as int);
    let q: int = if b.in_string { 1 } else { 0 };
    let mid: Seq<char> = if b.in_string { seq!['"'] } else { Seq::empty() };
    lemma_closers_innermost_first(b.stack);
    let r = closed_json(t);
    assert(r == t + mid + closers(b.stack));
    assert(r.subrange(0, t.len() as int) =~= t);
    assert forall|i: int| 0 <= i < b.stack.len() implies #[trigger] r[t.len() + q + i] == (if b.stack[
        b.stack.len() - 1 - i] == '{' {
        '}'
    } else {
        ']'
    }) by {
        assert(r[t.len() + q + i] == closers(b.stack)[i]);
    }
}

/// The repaired array from the trimmed text `t` and the complete objects kept
/// from it: those objects as an array when there is one, else `t` completed.
pub open spec fn assembled_repair(t: Seq<char>, kept: Seq<Seq<char>>) -> Seq<char> {
    if kept.len() > 0 {
        seq!['['] + join(kept, seq![',']) + seq![']']
    } else {
        closed_json(t)
    }
}

/// What `repair_truncated_json_array` makes of `raw`.
pub open spec fn repaired_json_array(raw: Seq<char>) -> Seq<char> {
    let t = trim(raw);
    assembled_repair(t, keep_parsable(top_level_objects(array_body(t))))
}

/// Completes the trimmed text `t`: closes an unterminated string, then every
/// open bracket in reverse order.
pub fn close_truncated_json(t: &str) -> (r: String)
    ensures
        r@ == closed_json(t@),
{
    let v = chars_of(t);
    let n = v.len();
    let mut stack: Vec<char> = Vec::new();
    let mut in_string = false;
    let mut escaped = false;
    let mut i: usize = 0;
    while i < n
        invariant
            i <= n,
            n == v@.len(),
            stack@ == bracket_scan(v@, i as int).stack,
            in_string == bracket_scan(v@, i as int).in_string,
            escaped == bracket_scan(v@, i as int).escaped,
        decreases n - i,
    {
        let c = v[i];
        if escaped {
            escaped = false;
        } else if in_string {
            if c == '\\' {
                escaped = true;
            } else if c == '"' {
                in_string = false;
            }
        } else if c == '"' {
            in_string = true;
        } else if c == '{' || c == '[' {
            stack.push(c);
        } else if (c == '}' && stack.len() > 0 && stack[stack.len() - 1] == '{') || (c == ']'
            && stack.len() > 0 && stack[stack.len() - 1] == '[') {
            stack.pop();
        }
        i = i + 1;
    }
    let mut result = v;
    if in_string {
        result.push('"');
    }
    let ghost prefix = result@;
    let ghost full = stack@;
    while stack.len() > 0
        invariant
            result@ + closers(stack@) == prefix + closers(full),
        decreases stack.len(),
    {
        let o = stack.pop().unwrap();
        let ghost before = stack@.push(o);
        assert(closers(before) == seq![closer(o)] + closers(stack@)) by {
            assert(before.drop_last() =~= stack@);
        }
        if o == '{' {
            result.push('}');
        } else {
            result.push(']');
        }
        assert(result@ + closers(stack@) =~= prefix + closers(full));
    }
    assert(closers(stack@) =~= Seq::<char>::empty());
    assert(result@ =~= closed_json(t@));
    string_from_chars(result.as_slice())
}

/// Builds the repaired array from the trimmed text and the complete objects
/// that parsed: `[a,b,..]` when there is at least one, else the closed text.
pub fn assemble_repaired_array(trimmed: &str, kept: &Vec<String>) -> (r: String)
    ensures
        r@ == assembled_repair(trimmed@, views(kept@)),
{
    if kept.len() > 0 {
        let mut out: Vec<char> = Vec::new();
        out.push('[');
        append_joined(&mut out, kept, ",");
        out.push(']');
        proof {
            reveal_strlit(",");
            assert(","@ =~= seq![',']);
        }
        assert(out@ =~= seq!['['] + join(views(kept@), seq![',']) + seq![']']);
        string_from_chars(out.as_slice())
    } else {
        close_truncated_json(trimmed)
    }
}

/// The complete top-level objects of `s` that parse as JSON, in order.
pub fn parsable_top_level_objects(s: &str) -> (r: Vec<String>)
    ensures
        views(r@) == keep_parsable(top_level_objects(s@)),
{
    let v = chars_of(s);
    let n = v.len();
    let mut depth: usize = 0;
    let mut in_string = false;
    let mut escaped = false;
    let mut start: Option<usize> = None;
    let mut kept: Vec<String> = Vec::new();
    let mut i: usize = 0;
    while i < n
        invariant
            i <= n,
            n == v@.len(),
            depth == object_scan(v@, i as int).depth,
            depth <= i,
            in_string == object_scan(v@, i as int).in_string,
            escaped == object_scan(v@, i as int).escaped,
            start matches Some(a) ==> object_scan(v@, i as int).start == Some(a as int) && a < i,
            start is None ==> object_scan(v@, i as int).start is None,
            views(kept@) == keep_parsable(object_scan(v@, i as int).objects),
        decreases n - i,
    {
        let c = v[i];
        let ghost st = object_scan(v@, i as int);
        if escaped {
            escaped = false;
        } else if in_string {
            if c == '\\' {
                escaped = true;
            } else if c == '"' {
                in_string = false;
            }
        } else if c == '"' {
            in_string = true;
        } else if c == '{' {
            if depth == 0 {
                start = Some(i);
            }
            depth = depth + 1;
        } else if c == '}' && depth > 0 {
            depth = depth - 1;
            if depth == 0 {
                if let Some(a) = start {
                    start = None;
                    let cand = copy_range(v.as_slice(), a, i + 1);
                    let cs = string_from_chars(cand.as_slice());
                    let ghost objs = st.objects.push(v@.subrange(a as int, i + 1));
                    assert(objs.drop_last() =~= st.objects);
                    if parses_as_json_value(cs.as_str()) {
                        let ghost old_kept = kept@;
                        kept.push(cs);
                        assert(views(kept@) =~= views(old_kept).push(cs@));
                    }
                }
            }
        }
        i = i + 1;
    }
    kept
}

/// Repairs a JSON array that the model's token limit cut off: keeps every
/// complete top-level object that parses, or, when there is none, closes the
/// open string and brackets of the text.
pub fn repair_truncated_json_array(raw: &str) -> (r: String)
    ensures
        r@ == repaired_json_array(raw@),
{
    let v = chars_of(raw);
    let t = trim_chars(v.as_slice());
    let inner = if begins_with(t.as_slice(), '[') {
        copy_range(t.as_slice(), 1, t.len())
    } else {
        copy_range(t.as_slice(), 0, t.len())
    };
    assert(inner@ =~= array_body(t@));
    let inner_s = string_from_chars(inner.as_slice());
    let kept = parsable_top_level_objects(inner_s.as_str());
    let ts = string_from_chars(t.as_slice());
    assemble_repaired_array(ts.as_str(), &kept)
}

// ── salvaging the questions array of a wrapper ───────────────────────

/// Where the search for the `]` that closes an array stands.
pub struct CloseScan {
    pub depth: nat,
    pub in_string: bool,
    pub escaped: bool,
    pub close: Option<int>,
}

/// The close scan state after reading `c` at index `i` in state `st`.
pub open spec fn close_step(st: CloseScan, c: char, i: int) -> CloseScan {
    if st.close is Some {
        st
    } else if st.escaped {
        CloseScan { depth: st.depth, in_string: st.in_string, escaped: false, close: None }
    } else if st.in_string {
        if c == '\\' {
            CloseScan { depth: st.depth, in_string: true, escaped: true, close: None }
        } else if c == '"' {
            CloseScan { depth: st.depth, in_string: false, escaped: false, close: None }
        } else {
            st
        }
    } else if c == '"' {
        CloseScan { depth: st.depth, in_string: true, escaped: false, close: None }
    } else if c == '[' {
        CloseScan { depth: st.depth + 1, in_string: false, escaped: false, close: None }
    } else if c == ']' && st.depth > 0 {
        if st.depth == 1 {
            CloseScan { depth: 0, in_string: false, escaped: false, close: Some(i) }
        } else {
            CloseScan { depth: (st.depth - 1) as nat, in_string: false, escaped: false, close: None }
        }
    } else {
        st
    }
}

/// The close scan state after the first `n` characters of `s`.
pub open spec fn close_scan(s: Seq<char>, n: int) -> CloseScan
    decreases n,
{
    if n <= 0 {
        CloseScan { depth: 0, in_string: false, escaped: false, close: None }
    } else {
        close_step(close_scan(s, n - 1), s[n - 1], n - 1)
    }
}

/// The array that starts the text `t` up to its matching `]`, or all of `t`
/// when it is never closed.
pub open spec fn array_through_close(t: Seq<char>) -> Seq<char> {
    match close_scan(t, t.len() as int).close {
        Some(e) => t.take(e + 1),
        None => t,
    }
}

/// The text of the array under the key `"questions"` of `t`: from the first
/// `[` after the first `:` after the key to its matching `]`, or to the end
/// of `t` when the array was cut off.
pub open spec fn questions_array_fragment(t: Seq<char>) -> Option<Seq<char>> {
    let key = "\"questions\""@;
    match find(t, key) {
        None => None,
        Some(kp) => match find_from(t, seq![':'], kp + key.len()) {
            None => None,
            Some(c) => match find_from(t, seq!['['], c + 1) {
                None => None,
                Some(a) => Some(array_through_close(t.skip(a))),
            },
        },
    }
}

/// Scans `trimmed` for the `questions` array of an object wrapper, even when
/// the wrapper itself was cut off.
pub fn extract_questions_array_from_wrapper_scanning(trimmed: &str) -> (r: Option<String>)
    ensures
        r matches Some(q) ==> questions_array_fragment(trimmed@) == Some(q@),
        r is None ==> questions_array_fragment(trimmed@) is None,
{
    let v = chars_of(trimmed);
    let n = v.len();
    let key = chars_of("\"questions\"");
    let key_pos = match find_chars(v.as_slice(), key.as_slice()) {
        Some(k) => k,
        None => return None,
    };
    assert(key_pos + key@.len() <= n);
    let colon = match find_char_from(v.as_slice(), ':', key_pos + key.len()) {
        Some(c) => c,
        None => return None,
    };
    let arr_start = match find_char_from(v.as_slice(), '[', colon + 1) {
        Some(a) => a,
        None => return None,
    };
    let arr = copy_range(v.as_slice(), arr_start, n);
    assert(arr@ =~= v@.skip(arr_start as int));
    assert(questions_array_fragment(trimmed@) == Some(array_through_close(arr@)));
    let m = arr.len();
    let mut depth: usize = 0;
    let mut in_string = false;
    let mut escaped = false;
    let mut i: usize = 0;
    while i < m
        invariant
            i <= m,
            m == arr@.len(),
            questions_array_fragment(trimmed@) == Some(array_through_close(arr@)),
            depth <= i,
            close_scan(arr@, i as int).close is None,
            depth == close_scan(arr@, i as int).depth,
            in_string == close_scan(arr@, i as int).in_string,
            escaped == close_scan(arr@, i as int).escaped,
        decreases m - i,
    {
        let c = arr[i];
        if escaped {
            escaped = false;
        } else if in_string {
            if c == '\\' {
                escaped = true;
            } else if c == '"' {
                in_string = false;
            }
        } else if c == '"' {
            in_string = true;
        } else if c == '[' {
            depth = depth + 1;
        } else if c == ']' && depth > 0 {
            depth = depth - 1;
            if depth == 0 {
                assert(close_scan(arr@, i + 1) == close_step(close_scan(arr@, i as int), arr@[i as int], i as int));
                assert(close_scan(arr@, i + 1).close == Some(i as int));
                proof {
                    lemma_close_scan_stays(arr@, i + 1, m as int);
                }
                let head = copy_range(arr.as_slice(), 0, i + 1);
                assert(head@ =~= arr@.take(i + 1));
                assert(close_scan(arr@, arr@.len() as int).close == Some(i as int));
                assert(array_through_close(arr@) == head@);
                return Some(string_from_chars(head.as_slice()));
            }
        }
        i = i + 1;
    }
    Some(string_from_chars(arr.as_slice()))
}

proof fn lemma_close_scan_stays(s: Seq<char>, k: int, n: int)
    requires
        0 <= k <= n,
        close_scan(s, k).close is Some,
    ensures
        close_scan(s, n) == close_scan(s, k),
    decreases n - k,
{
    if n > k {
        lemma_close_scan_stays(s, k, n - 1);
    }
}

/// The `questions` array of an object wrapper: the array itself when the
/// whole text is valid JSON, else the fragment a scan can salvage.
pub open spec fn questions_array_from_wrapper(json: Seq<char>) -> Option<Seq<char>> {
    let t = trim(json);
    if !starts_with_char(t, '{') {
        None
    } else if json_array_at(t, "questions"@) is Some {
        json_array_at(t, "questions"@)
    } else {
        questions_array_fragment(t)
    }
}

/// Extracts the `questions` array of an object-wrapped reply, whole or cut off.
pub fn extract_questions_array_from_wrapper(json_str: &str) -> (r: Option<String>)
    ensures
        r matches Some(q) ==> questions_array_from_wrapper(json_str@) == Some(q@),
        r is None ==> questions_array_from_wrapper(json_str@) is None,
{
    let v = chars_of(json_str);
    let t = trim_chars(v.as_slice());
    if !begins_with(t.as_slice(), '{') {
        return None;
    }
    let ts = string_from_chars(t.as_slice());
    if let Some(q) = json_array_at_key(ts.as_str(), "questions") {
        return Some(q);
    }
    extract_questions_array_from_wrapper_scanning(ts.as_str())
}

// ── diagnosing a reply that would not parse ──────────────────────────

/// Where the structural scan of a reply stands.
pub struct DiagScan {
    pub brace: nat,
    pub bracket: int,
    pub in_string: bool,
    pub escaped: bool,
    pub trailing_backslash: bool,
    pub pairs: nat,
}

/// The structural scan state after reading `c` in state `st`.
pub open spec fn diag_step(st: DiagScan, c: char) -> DiagScan {
    if st.escaped {
        DiagScan { escaped: false, ..st }
    } else if st.in_string {
        if c == '\\' {
            DiagScan { escaped: true, trailing_backslash: true, ..st }
        } else if c == '"' {
            DiagScan { in_string: false, trailing_backslash: false, ..st }
        } else {
            DiagScan { trailing_backslash: false, ..st }
        }
    } else if c == '"' {
        DiagScan { in_string: true, trailing_backslash: false, ..st }
    } else if c == '{' {
        DiagScan { brace: st.brace + 1, trailing_backslash: false, ..st }
    } else if c == '}' {
        if st.brace > 0 {
            DiagScan {
                brace: (st.brace - 1) as nat,
                pairs: st.pairs + 1,
                trailing_backslash: false,
                ..st
            }
        } else {
            DiagScan { trailing_backslash: false, ..st }
        }
    } else if c == '[' {
        DiagScan { bracket: st.bracket + 1, trailing_backslash: false, ..st }
    } else if c == ']' {
        DiagScan { bracket: st.bracket - 1, trailing_backslash: false, ..st }
    } else {
        DiagScan { trailing_backslash: false, ..st }
    }
}

/// The structural scan state after the first `n` characters of `s`.
pub open spec fn diag_scan(s: Seq<char>, n: int) -> DiagScan
    decreases n,
{
    if n <= 0 {
        DiagScan {
            brace: 0,
            bracket: 0,
            in_string: false,
            escaped: false,
            trailing_backslash: false,
            pairs: 0,
        }
    } else {
        diag_step(diag_scan(s, n - 1), s[n - 1])
    }
}

/// A diagnosis of a practice reply that could not be parsed.
pub struct PracticeJsonDiagnosis {
    /// "object_wrapper" | "root_array" | "unknown"
    pub format_guess: &'static str,
    /// Tags such as "truncated_in_string" or "trailing_backslash".
    pub tags: Vec<&'static str>,
    /// How many complete question objects could be salvaged.
    pub complete_questions: usize,
    /// serde_json's error message, when it reported one.
    pub serde_location: Option<String>,
    /// The last 120 characters of the trimmed reply.
    pub tail_context: String,
}

/// The mathematical content of a diagnosis.
pub struct DiagnosisModel {
    pub format_guess: Seq<char>,
    pub tags: Seq<Seq<char>>,
    pub complete_questions: nat,
    pub serde_location: Option<Seq<char>>,
    pub tail_context: Seq<char>,
}

impl View for PracticeJsonDiagnosis {
    type V = DiagnosisModel;

    open spec fn view(&self) -> DiagnosisModel {
        DiagnosisModel {
            format_guess: self.format_guess@,
            tags: str_views(self.tags@),
            complete_questions: self.complete_questions as nat,
            serde_location: match self.serde_location {
                Some(l) => Some(l@),
                None => None,
            },
            tail_context: self.tail_context@,
        }
    }
}

/// The shape a reply's first character suggests.
pub open spec fn format_guess_of(t: Seq<char>) -> Seq<char> {
    if starts_with_char(t, '{') {
        "object_wrapper"@
    } else if starts_with_char(t, '[') {
        "root_array"@
    } else {
        "unknown"@
    }
}

/// `[tag]` when `b` holds, else nothing.
pub open spec fn tag_if(b: bool, tag: Seq<char>) -> Seq<Seq<char>> {
    if b {
        seq![tag]
    } else {
        Seq::empty()
    }
}

/// The complete question objects: every closed `{..}` pair, less the wrapper
/// itself when an object wrapper was closed.
pub open spec fn complete_questions_of(t: Seq<char>) -> nat {
    let sc = diag_scan(t, t.len() as int);
    if starts_with_char(t, '{') && sc.brace == 0 {
        if sc.pairs > 0 {
            (sc.pairs - 1) as nat
        } else {
            0
        }
    } else {
        sc.pairs
    }
}

/// The tags of the diagnosis of the trimmed reply `t`, in order.
pub open spec fn diagnosis_tags(t: Seq<char>) -> Seq<Seq<char>> {
    let sc = diag_scan(t, t.len() as int);
    let wrapper = starts_with_char(t, '{') && find(t, "\"questions\""@) is Some;
    tag_if(sc.in_string, "truncated_in_string"@) + tag_if(
        sc.trailing_backslash,
        "trailing_backslash"@,
    ) + tag_if(sc.brace > 0, "unclosed_object"@) + tag_if(sc.bracket > 0, "unclosed_array"@)
        + tag_if(wrapper && sc.brace == 0 && sc.bracket > 0, "wrapper_ok_array_incomplete"@)
        + tag_if(wrapper && sc.brace > 0, "wrapper_incomplete"@) + tag_if(
        complete_questions_of(t) == 0 && byte_len(t) > 10,
        "no_complete_objects"@,
    )
}

/// The diagnosis of a practice reply `json`.
pub open spec fn diagnosis_of(json: Seq<char>) -> DiagnosisModel {
    let t = trim(json);
    DiagnosisModel {
        format_guess: format_guess_of(t),
        tags: diagnosis_tags(t),
        complete_questions: complete_questions_of(t),
        serde_location: if starts_with_char(t, '{') {
            json_value_error(t)
        } else {
            json_array_error(t)
        },
        tail_context: tail_ellipsized(t, 120),
    }
}

fn push_tag(tags: &mut Vec<&'static str>, b: bool, tag: &'static str)
    ensures
        str_views(final(tags)@) == str_views(old(tags)@) + tag_if(b, tag@),
{
    let ghost before = tags@;
    if b {
        tags.push(tag);
        assert(str_views(tags@) =~= str_views(before) + tag_if(b, tag@));
    } else {
        assert(str_views(tags@) =~= str_views(before) + tag_if(b, tag@));
    }
}

/// Diagnoses why a practice reply would not parse: its apparent shape, where
/// it was cut off, how many questions were complete, serde's message and the
/// end of the text.
pub fn diagnose_practice_json_error(json_str: &str) -> (d: PracticeJsonDiagnosis)
    ensures
        d@ == diagnosis_of(json_str@),
{
    let v = chars_of(json_str);
    let t = trim_chars(v.as_slice());
    let ts = string_from_chars(t.as_slice());
    let format_guess: &'static str = if begins_with(t.as_slice(), '{') {
        "object_wrapper"
    } else if begins_with(t.as_slice(), '[') {
        "root_array"
    } else {
        "unknown"
    };
    let object_wrapper = begins_with(t.as_slice(), '{');
    let serde_location = if object_wrapper {
        json_value_error_message(ts.as_str())
    } else {
        json_array_error_message(ts.as_str())
    };
    let n = t.len();
    let mut brace: usize = 0;
    let mut bracket_open: usize = 0;
    let mut bracket_close: usize = 0;
    let mut in_string = false;
    let mut escaped = false;
    let mut trailing_backslash = false;
    let mut pairs: usize = 0;
    let mut i: usize = 0;
    while i < n
        invariant
            i <= n,
            n == t@.len(),
            brace <= i,
            pairs <= i,
            bracket_open <= i,
            bracket_close <= i,
            brace == diag_scan(t@, i as int).brace,
            bracket_open - bracket_close == diag_scan(t@, i as int).bracket,
            in_string == diag_scan(t@, i as int).in_string,
            escaped == diag_scan(t@, i as int).escaped,
            trailing_backslash == diag_scan(t@, i as int).trailing_backslash,
            pairs == diag_scan(t@, i as int).pairs,
        decreases n - i,
    {
        let c = t[i];
        if escaped {
            escaped = false;
        } else if in_string {
            if c == '\\' {
                escaped = true;
                trailing_backslash = true;
            } else if c == '"' {
                in_string = false;
                trailing_backslash = false;
            } else {
                trailing_backslash = false;
            }
        } else if c == '"' {
            in_string = true;
            trailing_backslash = false;
        } else if c == '{' {
            trailing_backslash = false;
            brace = brace + 1;
        } else if c == '}' {
            trailing_backslash = false;
            if brace > 0 {
                brace = brace - 1;
                pairs = pairs + 1;
            }
        } else if c == '[' {
            bracket_open = bracket_open + 1;
            trailing_backslash = false;
        } else if c == ']' {
            bracket_close = bracket_close + 1;
            trailing_backslash = false;
        } else {
            trailing_backslash = false;
        }
        i = i + 1;
    }
    let complete_questions = if object_wrapper && brace == 0 {
        if pairs > 0 {
            pairs - 1
        } else {
            0
        }
    } else {
        pairs
    };
    let key = chars_of("\"questions\"");
    let wrapper = object_wrapper && find_chars(t.as_slice(), key.as_slice()).is_some();
    let bracket_unclosed = bracket_open > bracket_close;
    let mut tags: Vec<&'static str> = Vec::new();
    push_tag(&mut tags, in_string, "truncated_in_string");
    push_tag(&mut tags, trailing_backslash, "trailing_backslash");
    push_tag(&mut tags, brace > 0, "unclosed_object");
    push_tag(&mut tags, bracket_unclosed, "unclosed_array");
    push_tag(&mut tags, wrapper && brace == 0 && bracket_unclosed, "wrapper_ok_array_incomplete");
    push_tag(&mut tags, wrapper && brace > 0, "wrapper_incomplete");
    push_tag(
        &mut tags,
        complete_questions == 0 && ts.as_str().len() > 10,
        "no_complete_objects",
    );
    let tail_context = tail_chars(ts.as_str(), 120);
    let d = PracticeJsonDiagnosis {
        format_guess,
        tags,
        complete_questions,
        serde_location,
        tail_context,
    };
    assert(wrapper == (starts_with_char(t@, '{') && find(t@, "\"questions\""@) is Some));
    assert(bracket_unclosed == (diag_scan(t@, n as int).bracket > 0));
    assert(complete_questions == complete_questions_of(t@));
    assert(d@.tags =~= diagnosis_tags(t@));
    d
}

/// serde's message as the diagnosis shows it: cut to 200 characters when it
/// is longer than 200 bytes.
pub open spec fn location_text(l: Seq<char>) -> Seq<char> {
    if byte_len(l) > 200 {
        ellipsized(l, 200)
    } else {
        l
    }
}

/// The parts of the diagnosis message of a practice reply `json`, in order.
pub open spec fn diagnosis_parts(json: Seq<char>) -> Seq<Seq<char>> {
    let d = diagnosis_of(json);
    seq![
        "格式="@ + d.format_guess,
        "长度="@ + decimal(byte_len(json) as nat) + "字节/"@ + decimal(json.len()) + "字符"@,
        "已完成题目数="@ + decimal(d.complete_questions),
    ] + (if d.tags.len() > 0 {
        seq!["诊断=["@ + join(d.tags, ", "@) + "]"@]
    } else {
        Seq::empty()
    }) + (match d.serde_location {
        Some(l) => seq!["serde错误="@ + location_text(l)],
        None => Seq::empty(),
    }) + seq!["尾部上下文=\""@ + d.tail_context + "\""@]
}

/// The error message for a practice reply `json` that could not be parsed
/// even after repair.
pub open spec fn diagnosis_message(json: Seq<char>) -> Seq<char> {
    "练习题 JSON 解析失败（含修复尝试）。"@ + join(diagnosis_parts(json), "；"@)
        + "。原始内容前500字符: "@ + ellipsized(json, 500)
}

/// A `String` from characters, for message parts.
fn part(v: Vec<char>) -> (s: String)
    ensures
        s@ == v@,
{
    string_from_chars(v.as_slice())
}

/// The human-readable message for a practice reply that failed to parse.
pub fn format_diagnosis(json_str: &str) -> (r: String)
    ensures
        r@ == diagnosis_message(json_str@),
{
    let d = diagnose_practice_json_error(json_str);
    let len_bytes = json_str.len();
    let len_chars = chars_of(json_str).len();
    let ghost dm = diagnosis_of(json_str@);
    let mut parts: Vec<String> = Vec::new();

    let mut p1: Vec<char> = Vec::new();
    append_str(&mut p1, "格式=");
    append_str(&mut p1, d.format_guess);
    parts.push(part(p1));

    let mut p2: Vec<char> = Vec::new();
    append_str(&mut p2, "长度=");
    append_decimal(&mut p2, len_bytes);
    append_str(&mut p2, "字节/");
    append_decimal(&mut p2, len_chars);
    append_str(&mut p2, "字符");
    parts.push(part(p2));

    let mut p3: Vec<char> = Vec::new();
    append_str(&mut p3, "已完成题目数=");
    append_decimal(&mut p3, d.complete_questions);
    parts.push(part(p3));

    let ghost head = views(parts@);
    assert(head =~= seq![
        "格式="@ + dm.format_guess,
        "长度="@ + decimal(byte_len(json_str@) as nat) + "字节/"@ + decimal(json_str@.len()) + "字符"@,
        "已完成题目数="@ + decimal(dm.complete_questions),
    ]);

    if d.tags.len() > 0 {
        let mut p4: Vec<char> = Vec::new();
        append_str(&mut p4, "诊断=[");
        append_joined_strs(&mut p4, &d.tags, ", ");
        append_str(&mut p4, "]");
        parts.push(part(p4));
    }
    let ghost with_tags = views(parts@);
    assert(with_tags =~= head + (if dm.tags.len() > 0 {
        seq!["诊断=["@ + join(dm.tags, ", "@) + "]"@]
    } else {
        Seq::<Seq<char>>::empty()
    }));

    if let Some(loc) = &d.serde_location {
        let loc_short = if loc.as_str().len() > 200 {
            truncate_for_error(loc.as_str(), 200)
        } else {
            loc.clone()
        };
        let mut p5: Vec<char> = Vec::new();
        append_str(&mut p5, "serde错误=");
        append_str(&mut p5, loc_short.as_str());
        parts.push(part(p5));
    }
    let ghost with_loc = views(parts@);
    assert(with_loc =~= with_tags + (match dm.serde_location {
        Some(l) => seq!["serde错误="@ + location_text(l)],
        None => Seq::<Seq<char>>::empty(),
    }));

    let mut p6: Vec<char> = Vec::new();
    append_str(&mut p6, "尾部上下文=\"");
    append_str(&mut p6, d.tail_context.as_str());
    append_str(&mut p6, "\"");
    parts.push(part(p6));
    assert(views(parts@) =~= diagnosis_parts(json_str@));

    let mut out: Vec<char> = Vec::new();
    append_str(&mut out, "练习题 JSON 解析失败（含修复尝试）。");
    append_joined(&mut out, &parts, "；");
    append_str(&mut out, "。原始内容前500字符: ");
    let cut = truncate_for_error(json_str, 500);
    append_str(&mut out, cut.as_str());
    string_from_chars(out.as_slice())
}

// ── practice plan diagnosis ──────────────────────────────────────────

/// What the plan diagnosis reads of one element of `items`: whether its
/// `image_spec` is a string, and its `dependency_mode`, `image_role` and
/// `image_type` when they are strings.
#[derive(Debug, Clone)]
pub struct PlanItemProbe {
    pub image_spec_is_string: bool,
    pub dependency_mode: Option<String>,
    pub image_role: Option<String>,
    pub image_type: Option<String>,
}

/// What the plan diagnosis reads of a text read as any JSON value.
#[derive(Debug, Clone)]
pub enum PlanJsonProbe {
    /// Not JSON at all.
    Invalid,
    /// A root array.
    Array,
    /// An object: whether it has `items`, and the elements of `items` when
    /// that is an array.
    Object { has_items: bool, items: Option<Vec<PlanItemProbe>> },
    /// Another value, as JSON text.
    Other(String),
}

/// Where and why serde refused the plan.
#[derive(Debug, Clone)]
pub struct SerdeErrorInfo {
    pub line: usize,
    pub column: usize,
    pub message: String,
}

/// Whether an item looks like the cause: a string image spec, the
/// `essential` dependency mode, or a hyphenated image role.
pub open spec fn suspicious_item(it: PlanItemProbe) -> bool {
    it.image_spec_is_string || (it.dependency_mode matches Some(m) && m@ == "essential"@) || (
    it.image_role matches Some(r) && r@.contains('-'))
}

/// The index of the first suspicious item.
pub open spec fn first_suspicious(items: Seq<PlanItemProbe>) -> Option<int>
    decreases items.len(),
{
    if items.len() == 0 {
        None
    } else if suspicious_item(items[0]) {
        Some(0)
    } else {
        match first_suspicious(items.drop_first()) {
            Some(i) => Some(i + 1),
            None => None,
        }
    }
}

/// The hints about one suspicious item.
pub open spec fn item_hints(idx: nat, it: PlanItemProbe) -> Seq<Seq<char>> {
    let at = "items["@ + decimal(idx) + "]."@;
    (if it.image_spec_is_string {
        seq![at + "image_spec 是 string，已支持兼容；若仍失败请检查其它字段"@]
    } else {
        Seq::empty()
    }) + (match it.dependency_mode {
        Some(m) => seq![at + "dependency_mode="@ + m@ + "（可能是不兼容枚举值）"@],
        None => Seq::empty(),
    }) + (match it.image_role {
        Some(r) => seq![at + "image_role="@ + r@ + "（已尝试兼容连字符）"@],
        None => Seq::empty(),
    }) + (match it.image_type {
        Some(t) => seq![at + "image_type="@ + t@],
        None => Seq::empty(),
    })
}

/// The hint naming serde's position and reason.
pub open spec fn serde_hint(err: SerdeErrorInfo) -> Seq<char> {
    "serde 错误位置 line="@ + decimal(err.line as nat) + " column="@ + decimal(err.column as nat)
        + " reason="@ + err.message@
}

/// The hints of the plan diagnosis, in order.
pub open spec fn plan_hints(json: Seq<char>, probe: PlanJsonProbe, err: SerdeErrorInfo) -> Seq<Seq<char>> {
    match probe {
        PlanJsonProbe::Invalid => seq![
            serde_hint(err),
            "尾部上下文="@ + ellipsized(tail_ellipsized(json, 160), 180),
        ],
        PlanJsonProbe::Array => seq!["顶层是 root_array，非预期 object_wrapper"@, serde_hint(err)],
        PlanJsonProbe::Object { has_items, items } => (if has_items {
            Seq::empty()
        } else {
            seq!["缺少 items 字段"@]
        }) + (match items {
            Some(v) => match first_suspicious(v@) {
                Some(i) => item_hints(i as nat, v@[i]),
                None => Seq::empty(),
            },
            None => Seq::empty(),
        }) + seq![serde_hint(err)],
        PlanJsonProbe::Other(text) => seq!["顶层 JSON 类型异常: "@ + text@, serde_hint(err)],
    }
}

fn has_hyphen(s: &str) -> (b: bool)
    ensures
        b == s@.contains('-'),
{
    let v = chars_of(s);
    let n = v.len();
    let mut i: usize = 0;
    while i < n
        invariant
            n == v@.len(),
            v@ == s@,
            i <= n,
            forall|j: int| 0 <= j < i ==> v@[j] != '-',
        decreases n - i,
    {
        if v[i] == '-' {
            return true;
        }
        i = i + 1;
    }
    false
}

fn is_suspicious(it: &PlanItemProbe) -> (b: bool)
    ensures
        b == suspicious_item(*it),
{
    it.image_spec_is_string || (match &it.dependency_mode {
        Some(m) => same_text(m.as_str(), "essential"),
        None => false,
    }) || (match &it.image_role {
        Some(r) => has_hyphen(r.as_str()),
        None => false,
    })
}

proof fn lemma_first_suspicious_skips(items: Seq<PlanItemProbe>, k: int)
    requires
        0 <= k <= items.len(),
        forall|j: int| 0 <= j < k ==> !suspicious_item(#[trigger] items[j]),
    ensures
        k == items.len() ==> first_suspicious(items) is None,
        k < items.len() && suspicious_item(items[k]) ==> first_suspicious(items) == Some(k),
    decreases k,
{
    if k > 0 {
        let rest = items.drop_first();
        assert forall|j: int| 0 <= j < k - 1 implies !suspicious_item(#[trigger] rest[j]) by {
            assert(rest[j] == items[j + 1]);
        }
        lemma_first_suspicious_skips(rest, k - 1);
        if k < items.len() {
            assert(rest[k - 1] == items[k]);
        }
    }
}

fn first_suspicious_index(items: &Vec<PlanItemProbe>) -> (r: Option<usize>)
    ensures
        match r {
            Some(i) => first_suspicious(items@) == Some(i as int) && i < items@.len(),
            None => first_suspicious(items@) is None,
        },
{
    let n = items.len();
    let mut k: usize = 0;
    while k < n
        invariant
            n == items@.len(),
            k <= n,
            forall|j: int| 0 <= j < k ==> !suspicious_item(#[trigger] items@[j]),
        decreases n - k,
    {
        if is_suspicious(&items[k]) {
            proof {
                lemma_first_suspicious_skips(items@, k as int);
            }
            return Some(k);
        }
        k = k + 1;
    }
    proof {
        lemma_first_suspicious_skips(items@, n as int);
    }
    None
}

fn push_text(hints: &mut Vec<String>, text: Vec<char>)
    ensures
        views(final(hints)@) == views(old(hints)@).push(text@),
{
    let ghost before = hints@;
    hints.push(string_from_chars(text.as_slice()));
    assert(views(hints@) =~= views(before).push(text@));
}

fn item_hint_texts(hints: &mut Vec<String>, idx: usize, it: &PlanItemProbe)
    ensures
        views(final(hints)@) == views(old(hints)@) + item_hints(idx as nat, *it),
{
    let ghost start = views(hints@);
    let mut at: Vec<char> = Vec::new();
    append_str(&mut at, "items[");
    append_decimal(&mut at, idx);
    append_str(&mut at, "].");
    let ghost at_s = at@;
    if it.image_spec_is_string {
        let mut t = at.clone();
        append_str(&mut t, "image_spec 是 string，已支持兼容；若仍失败请检查其它字段");
        push_text(hints, t);
    }
    let ghost s1 = views(hints@);
    if let Some(m) = &it.dependency_mode {
        let mut t = at.clone();
        append_str(&mut t, "dependency_mode=");
        append_str(&mut t, m.as_str());
        append_str(&mut t, "（可能是不兼容枚举值）");
        push_text(hints, t);
    }
    let ghost s2 = views(hints@);
    if let Some(r) = &it.image_role {
        let mut t = at.clone();
        append_str(&mut t, "image_role=");
        append_str(&mut t, r.as_str());
        append_str(&mut t, "（已尝试兼容连字符）");
        push_text(hints, t);
    }
    let ghost s3 = views(hints@);
    if let Some(ty) = &it.image_type {
        let mut t = at.clone();
        append_str(&mut t, "image_type=");
        append_str(&mut t, ty.as_str());
        push_text(hints, t);
    }
    proof {
        let h = item_hints(idx as nat, *it);
        assert(at_s == "items["@ + decimal(idx as nat) + "]."@);
        assert(views(hints@) =~= start + h);
    }
}

fn serde_hint_text(err: &SerdeErrorInfo) -> (t: Vec<char>)
    ensures
        t@ == serde_hint(*err),
{
    let mut t: Vec<char> = Vec::new();
    append_str(&mut t, "serde 错误位置 line=");
    append_decimal(&mut t, err.line);
    append_str(&mut t, " column=");
    append_decimal(&mut t, err.column);
    append_str(&mut t, " reason=");
    append_str(&mut t, err.message.as_str());
    t
}

/// Explains why a practice plan did not parse: what the text is as JSON,
/// which item of `items` looks responsible, and serde's position and reason,
/// joined by "；".
pub fn diagnose_practice_plan_json(json_str: &str, probe: &PlanJsonProbe, err: &SerdeErrorInfo) -> (r:
    String)
    ensures
        r@ == join(plan_hints(json_str@, *probe, *err), "；"@),
{
    let mut hints: Vec<String> = Vec::new();
    match probe {
        PlanJsonProbe::Invalid => {
            push_text(&mut hints, serde_hint_text(err));
            let tail = tail_chars(json_str, 160);
            let shown = truncate_for_error(tail.as_str(), 180);
            let mut t: Vec<char> = Vec::new();
            append_str(&mut t, "尾部上下文=");
            append_str(&mut t, shown.as_str());
            push_text(&mut hints, t);
        },
        PlanJsonProbe::Array => {
            let mut t: Vec<char> = Vec::new();
            append_str(&mut t, "顶层是 root_array，非预期 object_wrapper");
            push_text(&mut hints, t);
            push_text(&mut hints, serde_hint_text(err));
        },
        PlanJsonProbe::Object { has_items, items } => {
            if !*has_items {
                let mut t: Vec<char> = Vec::new();
                append_str(&mut t, "缺少 items 字段");
                push_text(&mut hints, t);
            }
            let ghost before_items = views(hints@);
            if let Some(v) = items {
                if let Some(i) = first_suspicious_index(v) {
                    item_hint_texts(&mut hints, i, &v[i]);
                }
            }
            push_text(&mut hints, serde_hint_text(err));
        },
        PlanJsonProbe::Other(text) => {
            let mut t: Vec<char> = Vec::new();
            append_str(&mut t, "顶层 JSON 类型异常: ");
            append_str(&mut t, text.as_str());
            push_text(&mut hints, t);
            push_text(&mut hints, serde_hint_text(err));
        },
    }
    proof {
        assert(views(hints@) =~= plan_hints(json_str@, *probe, *err));
    }
    let mut out: Vec<char> = Vec::new();
    append_joined(&mut out, &hints, "；");
    string_from_chars(out.as_slice())
}

/// The error of a plan that did not parse: the diagnosis and the start of
/// the text.
pub fn plan_parse_error(json_str: &str, diagnosis: &str) -> (m: String)
    ensures
        m@ == "练习题规划 JSON 解析失败。"@ + diagnosis@ + "。原始内容: "@ + ellipsized(json_str@, 500),
{
    let mut out: Vec<char> = Vec::new();
    append_str(&mut out, "练习题规划 JSON 解析失败。");
    append_str(&mut out, diagnosis);
    append_str(&mut out, "。原始内容: ");
    let shown = truncate_for_error(json_str, 500);
    append_str(&mut out, shown.as_str());
    string_from_chars(out.as_slice())
}

// ── reply shapes ─────────────────────────────────────────────────────

/// The JSON part of a combined error analysis reply.
#[derive(Debug, Clone)]
pub struct AnalysisJson {
    pub subject: String,
    pub classification: Vec<String>,
    pub reason: String,
    pub suggestions: String,
}

/// The teaching analysis part of a combined reply.
#[derive(Debug, Clone)]
pub struct PedagogicalAnalysis {
    /// The subject.
    pub subject: String,
    /// The knowledge point tags.
    pub classification: Vec<String>,
    /// Why the answer went wrong.
    pub error_reason: String,
    /// How to improve.
    pub suggestions: String,
}

/// One mark a teacher left on the paper.
#[derive(Debug, Clone)]
pub struct TeacherMark {
    /// The kind of mark: a tick, a cross, a score, a note and so on.
    pub mark_type: String,
    /// Where in the question it stands.
    pub location_description: String,
    /// What the mark says.
    pub mark_content: String,
}

/// The breakdown of a question into its parts.
#[derive(Debug, Clone)]
pub struct QuestionStructure {
    /// The question type.
    pub question_type: String,
    /// Whether it has sub-questions.
    pub has_sub_questions: bool,
    /// Its sub-questions, if any.
    pub sub_questions: Vec<SubQuestion>,
}

/// One sub-question (its type is the JSON field `type`).
#[derive(Debug, Clone)]
pub struct SubQuestion {
    pub index: u32,
    pub q_type: String,
    pub stem: String,
    pub options: Vec<String>,
}

/// The JSON of a summary reply.
#[derive(Debug, Clone)]
pub struct SummaryJson {
    pub common_reasons: String,
    pub common_suggestions: String,
    pub weak_points: Vec<String>,
    pub detail: String,
}

// ── practice replies ─────────────────────────────────────────────────

/// A generated practice question.
#[derive(Debug, Clone)]
pub struct PracticeQuestion {
    pub question: String,
    pub answer: String,
    pub knowledge_points: Vec<String>,
    pub question_form: Option<String>,
    pub material_type: Option<String>,
    pub requires_image: bool,
    pub image_role: Option<PracticeImageRole>,
    pub image_type: Option<PracticeImageType>,
    pub dependency_mode: Option<PracticeDependencyMode>,
    pub image_spec: Option<PracticeImageSpec>,
    pub image_path: Option<String>,
}

/// How a candidate text of a practice reply is to be read.
#[derive(Debug, Clone, Copy, PartialEq, Eq, Structural)]
pub enum PracticePayloadShape {
    /// An object `{ "questions": [ ... ] }`.
    Wrapper,
    /// A root array `[ ... ]`.
    Array,
}

/// The texts to try, in order, when reading a practice reply: the payload as
/// a wrapper and as an array, the repaired `questions` array of a wrapper,
/// then the repaired payload as a wrapper and as an array.
pub open spec fn practice_candidates(raw: Seq<char>) -> Seq<(PracticePayloadShape, Seq<char>)> {
    let j = llm_json_payload(raw);
    seq![(PracticePayloadShape::Wrapper, j), (PracticePayloadShape::Array, j)] + (
    match questions_array_from_wrapper(j) {
        Some(q) => seq![(PracticePayloadShape::Array, repaired_json_array(q))],
        None => Seq::empty(),
    }) + seq![
        (PracticePayloadShape::Wrapper, repaired_json_array(j)),
        (PracticePayloadShape::Array, repaired_json_array(j)),
    ]
}

/// The candidates as plain values.
pub open spec fn candidate_views(v: Seq<(PracticePayloadShape, String)>) -> Seq<
    (PracticePayloadShape, Seq<char>),
> {
    v.map_values(|c: (PracticePayloadShape, String)| (c.0, c.1@))
}

/// The texts to try, in order, when reading a practice reply; the first that
/// parses as its shape gives the questions. When none does, the reply's error
/// is `format_diagnosis` of its payload.
pub fn practice_response_candidates(raw: &str) -> (r: Vec<(PracticePayloadShape, String)>)
    ensures
        candidate_views(r@) == practice_candidates(raw@),
{
    let json_str = extract_llm_json_payload(raw);
    let mut out: Vec<(PracticePayloadShape, String)> = Vec::new();
    out.push((PracticePayloadShape::Wrapper, json_str.clone()));
    out.push((PracticePayloadShape::Array, json_str.clone()));
    let ghost head = candidate_views(out@);
    if let Some(q) = extract_questions_array_from_wrapper(json_str.as_str()) {
        out.push((PracticePayloadShape::Array, repair_truncated_json_array(q.as_str())));
    }
    let ghost mid = candidate_views(out@);
    let repaired = repair_truncated_json_array(json_str.as_str());
    out.push((PracticePayloadShape::Wrapper, repaired.clone()));
    out.push((PracticePayloadShape::Array, repaired));
    assert(candidate_views(out@) =~= practice_candidates(raw@));
    out
}

} // verus!
