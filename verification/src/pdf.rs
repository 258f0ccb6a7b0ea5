//! Typst markup for practice sheets: cleaning and escaping text, fill-in
//! blanks, embedded image notes, markdown tables, and the sheet itself.
use vstd::prelude::*;
use crate::analysis::parser::PracticeQuestion;
use crate::practice::image_generator::{
    description_marker, image_class, without_description, PracticeImageClass,
};
use crate::text::{
    append_joined, append_str, chars_of, copy_range, count_char, count_of, find, find_char_from,
    find_chars, find_from, is_whitespace, is_ws, join, replace_all, replace_chars, split_chars,
    split_on, string_from_chars, trim, trim_chars, unix_newlines, to_unix_newlines, views,
    contains_string, append_decimal, decimal, trim_end, trim_end_chars, lines_of, lines_chars,
    words, split_words, append_joined_strs, str_views,
};

verus! {

/// The path of a rendered PDF.
#[derive(Debug, Clone)]
pub struct PdfOutput {
    pub path: String,
}

// ── cleaning and escaping ────────────────────────────────────────────

/// Emoji and emoji-forming code points: ZWJ, keycap, variation selector 16,
/// miscellaneous symbols and dingbats, regional indicators, and the pictograph
/// blocks.
pub open spec fn emoji_like(c: char) -> bool {
    let u = c as u32;
    u == 0x200D || u == 0x20E3 || u == 0xFE0F || (0x2600 <= u && u <= 0x27BF) || (0x1F1E6 <= u
        && u <= 0x1F1FF) || (0x1F300 <= u && u <= 0x1FAFF)
}

/// Whether `ch` is an emoji or part of one.
pub fn is_emoji_like(ch: char) -> (b: bool)
    ensures
        b == emoji_like(ch),
{
    let u = ch as u32;
    u == 0x200D || u == 0x20E3 || u == 0xFE0F || (0x2600 <= u && u <= 0x27BF) || (0x1F1E6 <= u
        && u <= 0x1F1FF) || (0x1F300 <= u && u <= 0x1FAFF)
}

/// `s` without emoji.
pub open spec fn without_emoji(s: Seq<char>) -> Seq<char>
    decreases s.len(),
{
    if s.len() == 0 {
        s
    } else if emoji_like(s.last()) {
        without_emoji(s.drop_last())
    } else {
        without_emoji(s.drop_last()).push(s.last())
    }
}

/// `s` without emoji, trimmed.
pub open spec fn sanitized(s: Seq<char>) -> Seq<char> {
    trim(without_emoji(s))
}

/// Drops emoji from `s` and trims it.
pub fn sanitize_text(s: &str) -> (r: String)
    ensures
        r@ == sanitized(s@),
{
    let v = chars_of(s);
    let n = v.len();
    let mut kept: Vec<char> = Vec::new();
    let mut i: usize = 0;
    while i < n
        invariant
            i <= n,
            n == v@.len(),
            kept@ == without_emoji(v@.take(i as int)),
        decreases n - i,
    {
        assert(v@.take(i + 1).drop_last() =~= v@.take(i as int));
        if !is_emoji_like(v[i]) {
            kept.push(v[i]);
        }
        i = i + 1;
    }
    assert(v@.take(n as int) =~= v@);
    let t = trim_chars(kept.as_slice());
    string_from_chars(t.as_slice())
}

/// Characters that Typst markup gives a meaning and that need a backslash.
pub open spec fn typst_special(c: char) -> bool {
    c == '\\' || c == '#' || c == '$' || c == '<' || c == '>' || c == '[' || c == ']' || c == '*'
        || c == '_' || c == '@' || c == '~' || c == '`'
}

/// `c` as Typst markup.
pub open spec fn escape_char(c: char) -> Seq<char> {
    if typst_special(c) {
        seq!['\\', c]
    } else {
        seq![c]
    }
}

/// `s` as Typst markup, every special character escaped.
pub open spec fn escaped(s: Seq<char>) -> Seq<char>
    decreases s.len(),
{
    if s.len() == 0 {
        s
    } else {
        escaped(s.drop_last()) + escape_char(s.last())
    }
}

fn push_escaped_char(out: &mut Vec<char>, c: char)
    ensures
        final(out)@ == old(out)@ + escape_char(c),
{
    if c == '\\' || c == '#' || c == '$' || c == '<' || c == '>' || c == '[' || c == ']' || c
        == '*' || c == '_' || c == '@' || c == '~' || c == '`' {
        out.push('\\');
    }
    out.push(c);
    assert(final(out)@ =~= old(out)@ + escape_char(c));
}

fn append_escaped(out: &mut Vec<char>, v: &[char])
    ensures
        final(out)@ == old(out)@ + escaped(v@),
{
    let ghost start = out@;
    let n = v.len();
    let mut i: usize = 0;
    while i < n
        invariant
            i <= n,
            n == v@.len(),
            out@ == start + escaped(v@.take(i as int)),
        decreases n - i,
    {
        assert(v@.take(i + 1).drop_last() =~= v@.take(i as int));
        push_escaped_char(out, v[i]);
        assert(out@ =~= start + escaped(v@.take(i + 1)));
        i = i + 1;
    }
    assert(v@.take(n as int) =~= v@);
}

/// Escapes the characters of `s` that Typst markup would interpret.
pub fn escape_typst(s: &str) -> (r: String)
    ensures
        r@ == escaped(s@),
{
    let v = chars_of(s);
    let mut out: Vec<char> = Vec::new();
    append_escaped(&mut out, v.as_slice());
    string_from_chars(out.as_slice())
}

// ── fill-in blanks ───────────────────────────────────────────────────

/// The width, in full-width spaces, of a blank with `blank_len` underscores.
pub open spec fn blank_width(blank_len: nat) -> nat {
    if blank_len <= 2 {
        6
    } else if blank_len <= 4 {
        8
    } else if blank_len <= 6 {
        10
    } else {
        12
    }
}

/// The width of a blank with `blank_len` underscores.
pub fn blank_spaces(blank_len: usize) -> (r: usize)
    ensures
        r == blank_width(blank_len as nat),
{
    if blank_len <= 2 {
        6
    } else if blank_len <= 4 {
        8
    } else if blank_len <= 6 {
        10
    } else {
        12
    }
}

/// A blank of `n` full-width spaces in full-width parentheses.
pub open spec fn blank_text(n: nat) -> Seq<char> {
    seq!['（'] + Seq::new(n, |i: int| '　') + seq!['）']
}

fn append_blank(out: &mut Vec<char>, n: usize)
    ensures
        final(out)@ == old(out)@ + blank_text(n as nat),
{
    let ghost start = out@;
    out.push('（');
    let mut k: usize = 0;
    while k < n
        invariant
            k <= n,
            out@ == start + seq!['（'] + Seq::new(k as nat, |i: int| '　'),
        decreases n - k,
    {
        out.push('　');
        assert(out@ =~= start + seq!['（'] + Seq::new((k + 1) as nat, |i: int| '　'));
        k = k + 1;
    }
    out.push('）');
    assert(out@ =~= start + blank_text(n as nat));
}

/// The markup of a blank `space_count` full-width spaces wide.
pub fn blank_markup(space_count: usize) -> (r: String)
    ensures
        r@ == blank_text(space_count as nat),
{
    let mut out: Vec<char> = Vec::new();
    append_blank(&mut out, space_count);
    string_from_chars(out.as_slice())
}

/// An underscore, half- or full-width.
pub open spec fn underscore(c: char) -> bool {
    c == '_' || c == '＿'
}

/// How many underscores `s` holds.
pub open spec fn underscores(s: Seq<char>) -> nat
    decreases s.len(),
{
    if s.len() == 0 {
        0
    } else {
        underscores(s.drop_last()) + if underscore(s.last()) {
            1nat
        } else {
            0nat
        }
    }
}

/// The parenthesis that closes `c`.
pub open spec fn closing_paren(c: char) -> char {
    if c == '（' {
        '）'
    } else {
        ')'
    }
}

/// A fill-in blank at the start of `s`: a parenthesised run of underscores
/// and white space. Gives how many characters it spans and its width.
pub open spec fn blank_at(s: Seq<char>) -> Option<(nat, nat)> {
    if s.len() == 0 || !(s[0] == '（' || s[0] == '(') {
        None
    } else {
        match find_from(s, seq![closing_paren(s[0])], 1) {
            None => None,
            Some(j) => {
                let inner = s.subrange(1, j);
                let t = trim(inner);
                if forall|k: int| 0 <= k < t.len() ==> underscore(#[trigger] t[k]) || is_ws(t[k]) {
                    Some(((j + 1) as nat, blank_width(underscores(inner))))
                } else {
                    None
                }
            },
        }
    }
}

/// Recognises a fill-in blank at the start of `chars`.
pub fn match_blank_at(chars: &[char]) -> (r: Option<(usize, usize)>)
    ensures
        r matches Some(p) ==> blank_at(chars@) == Some((p.0 as nat, p.1 as nat)),
        r matches Some(p) ==> 2 <= p.0 <= chars@.len(),
        r is None ==> blank_at(chars@) is None,
{
    let n = chars.len();
    if n == 0 {
        return None;
    }
    let first = chars[0];
    if !(first == '（' || first == '(') {
        return None;
    }
    let closing = if first == '（' {
        '）'
    } else {
        ')'
    };
    let j = match find_char_from(chars, closing, 1) {
        Some(j) => j,
        None => return None,
    };
    let inner = copy_range(chars, 1, j);
    let t = trim_chars(inner.as_slice());
    let m = t.len();
    let mut k: usize = 0;
    assert(closing == closing_paren(chars@[0]));
    while k < m
        invariant
            k <= m,
            m == t@.len(),
            t@ == trim(chars@.subrange(1, j as int)),
            chars@.len() > 0,
            chars@[0] == '（' || chars@[0] == '(',
            find_from(chars@, seq![closing_paren(chars@[0])], 1) == Some(j as int),
            forall|x: int| 0 <= x < k ==> underscore(#[trigger] t@[x]) || is_ws(t@[x]),
        decreases m - k,
    {
        let c = t[k];
        if !(c == '_' || c == '＿' || is_whitespace(c)) {
            assert(!(underscore(t@[k as int]) || is_ws(t@[k as int])));
            return None;
        }
        k = k + 1;
    }
    let il = inner.len();
    let mut blank_len: usize = 0;
    let mut x: usize = 0;
    while x < il
        invariant
            x <= il,
            il == inner@.len(),
            blank_len <= x,
            blank_len == underscores(inner@.take(x as int)),
        decreases il - x,
    {
        assert(inner@.take(x + 1).drop_last() =~= inner@.take(x as int));
        if inner[x] == '_' || inner[x] == '＿' {
            blank_len = blank_len + 1;
        }
        x = x + 1;
    }
    assert(inner@.take(il as int) =~= inner@);
    Some((j + 1, blank_spaces(blank_len)))
}

/// A line as Typst markup: fill-in blanks widened, everything else escaped.
pub open spec fn inline_markup(s: Seq<char>) -> Seq<char>
    decreases s.len(),
{
    if s.len() == 0 {
        s
    } else {
        match blank_at(s) {
            Some((k, w)) => if 0 < k <= s.len() {
                blank_text(w) + inline_markup(s.skip(k as int))
            } else {
                Seq::empty()
            },
            None => escape_char(s[0]) + inline_markup(s.skip(1)),
        }
    }
}

fn append_inline(out: &mut Vec<char>, v: &[char])
    ensures
        final(out)@ == old(out)@ + inline_markup(v@),
{
    let ghost start = out@;
    let n = v.len();
    let mut i: usize = 0;
    assert(v@.skip(0) =~= v@);
    while i < n
        invariant
            i <= n,
            n == v@.len(),
            out@ + inline_markup(v@.skip(i as int)) == start + inline_markup(v@),
        decreases n - i,
    {
        let rest = copy_range(v, i, n);
        assert(rest@ =~= v@.skip(i as int));
        match match_blank_at(rest.as_slice()) {
            Some((consumed, width)) => {
                append_blank(out, width);
                assert(rest@.skip(consumed as int) =~= v@.skip(i + consumed));
                assert(out@ + inline_markup(v@.skip(i + consumed)) =~= start + inline_markup(v@));
                i = i + consumed;
            },
            None => {
                push_escaped_char(out, v[i]);
                assert(rest@.skip(1) =~= v@.skip(i + 1));
                assert(out@ + inline_markup(v@.skip(i + 1)) =~= start + inline_markup(v@));
                i = i + 1;
            },
        }
    }
    assert(v@.skip(n as int) =~= Seq::<char>::empty());
    assert(out@ =~= start + inline_markup(v@));
}

/// Renders one line of question text as Typst markup.
pub fn render_inline_markup(s: &str) -> (r: String)
    ensures
        r@ == inline_markup(s@),
{
    let v = chars_of(s);
    let mut out: Vec<char> = Vec::new();
    append_inline(&mut out, v.as_slice());
    string_from_chars(out.as_slice())
}

// ── image notes and images ───────────────────────────────────────────

/// The question text without its "[图片说明：...]" block, and the trimmed note
/// of that block when there is one.
pub open spec fn split_description(t: Seq<char>) -> (Seq<char>, Option<Seq<char>>) {
    match find(t, description_marker()) {
        None => (t, None),
        Some(i) => match find_from(t, seq![']'], i + description_marker().len()) {
            None => (t, None),
            Some(e) => (
                t.take(i) + t.skip(e + 1),
                Some(trim(t.subrange(i + description_marker().len(), e))),
            ),
        },
    }
}

/// Separates an embedded image note from the question text.
pub fn split_image_description(question_text: &str) -> (r: (String, Option<String>))
    ensures
        r.0@ == split_description(question_text@).0,
        r.1 matches Some(x) ==> split_description(question_text@).1 == Some(x@),
        r.1 is None ==> split_description(question_text@).1 is None,
{
    let v = chars_of(question_text);
    let n = v.len();
    let marker = chars_of("[图片说明：");
    let i = match find_chars(v.as_slice(), marker.as_slice()) {
        Some(i) => i,
        None => return (string_from_chars(v.as_slice()), None),
    };
    assert(i + marker@.len() <= n);
    let st = i + marker.len();
    let e = match find_char_from(v.as_slice(), ']', st) {
        Some(e) => e,
        None => return (string_from_chars(v.as_slice()), None),
    };
    let inner = copy_range(v.as_slice(), st, e);
    let note = trim_chars(inner.as_slice());
    let mut q = copy_range(v.as_slice(), 0, i);
    let rest = copy_range(v.as_slice(), e + 1, n);
    q.extend_from_slice(rest.as_slice());
    assert(q@ =~= v@.take(i as int) + v@.skip(e + 1));
    (string_from_chars(q.as_slice()), Some(string_from_chars(note.as_slice())))
}

/// The width of a question's image: narrower for diagrams, tables and charts.
pub open spec fn image_width(q: PracticeQuestion) -> Seq<char> {
    if image_class(q.image_type) == PracticeImageClass::Precise {
        "52%"@
    } else {
        "60%"@
    }
}

/// The width of a question's image on the sheet.
pub fn image_width_for_question(q: &PracticeQuestion) -> (r: &'static str)
    ensures
        r@ == image_width(*q),
{
    match q.image_type {
        Some(crate::practice::planner::PracticeImageType::GeometryDiagram) | Some(
            crate::practice::planner::PracticeImageType::Table,
        ) | Some(crate::practice::planner::PracticeImageType::BarChart) | Some(
            crate::practice::planner::PracticeImageType::LineChart,
        ) | Some(crate::practice::planner::PracticeImageType::PieChart) | Some(
            crate::practice::planner::PracticeImageType::SequenceDiagram,
        ) | Some(crate::practice::planner::PracticeImageType::MapOrLayout) => "52%",
        _ => "60%",
    }
}

/// The small grey line showing an image note under a question.
pub open spec fn note_markup(note: Seq<char>) -> Seq<char> {
    "#align(left)[#text(size: 9pt, fill: luma(90))[图片说明："@ + escaped(sanitized(note)) + "]]"@
}

/// Renders an image note.
pub fn image_note_markup(note: &str) -> (r: String)
    ensures
        r@ == note_markup(note@),
{
    let clean = sanitize_text(note);
    let cv = chars_of(clean.as_str());
    let mut out: Vec<char> = Vec::new();
    append_str(&mut out, "#align(left)[#text(size: 9pt, fill: luma(90))[图片说明：");
    append_escaped(&mut out, cv.as_slice());
    append_str(&mut out, "]]");
    string_from_chars(out.as_slice())
}

/// The virtual path under which a generated image is registered.
pub open spec fn image_virtual_path(relative: Seq<char>) -> Seq<char> {
    "/practice-images/"@ + replace_all(relative, "\\"@, "/"@)
}

/// The virtual path of a generated image.
pub fn practice_image_path(relative: &str) -> (r: String)
    ensures
        r@ == image_virtual_path(relative@),
{
    proof {
        reveal_strlit("\\");
    }
    let rv = chars_of(relative);
    let mut out: Vec<char> = Vec::new();
    append_str(&mut out, "/practice-images/");
    let replaced = replace_chars(rv.as_slice(), "\\", "/");
    out.extend_from_slice(replaced.as_slice());
    string_from_chars(out.as_slice())
}

/// The markup of a question's image, when its file was registered.
pub open spec fn image_markup(q: PracticeQuestion, registered: Seq<Seq<char>>) -> Option<Seq<char>> {
    match q.image_path {
        None => None,
        Some(rel) => {
            let vp = image_virtual_path(rel@);
            if registered.contains(vp) {
                Some(
                    "#align(center)[#image(\""@ + escaped(vp) + "\", width: "@ + image_width(q)
                        + ")]"@,
                )
            } else {
                None
            }
        },
    }
}

/// Renders a question's image, when its file is among the `registered` paths.
pub fn question_image_markup(q: &PracticeQuestion, registered: &Vec<String>) -> (r: Option<String>)
    ensures
        r matches Some(m) ==> image_markup(*q, views(registered@)) == Some(m@),
        r is None ==> image_markup(*q, views(registered@)) is None,
{
    let relative = match &q.image_path {
        Some(p) => p,
        None => return None,
    };
    let vp = practice_image_path(relative.as_str());
    if !contains_string(registered, vp.as_str()) {
        return None;
    }
    let vv = chars_of(vp.as_str());
    let mut out: Vec<char> = Vec::new();
    append_str(&mut out, "#align(center)[#image(\"");
    append_escaped(&mut out, vv.as_slice());
    append_str(&mut out, "\", width: ");
    append_str(&mut out, image_width_for_question(q));
    append_str(&mut out, ")]");
    Some(string_from_chars(out.as_slice()))
}

// ── multi-line text ──────────────────────────────────────────────────

/// The lines of `text` separated by Typst line breaks, each ended by `\n`.
pub open spec fn multiline(text: Seq<char>) -> Seq<char> {
    join(split_on(unix_newlines(text), '\n'), "\n#linebreak()\n"@) + "\n"@
}

fn append_multiline(out: &mut Vec<char>, text: &str)
    ensures
        final(out)@ == old(out)@ + multiline(text@),
{
    let tv = chars_of(text);
    let normalized = to_unix_newlines(tv.as_slice());
    let pieces = split_chars(normalized.as_slice(), '\n');
    let mut strs: Vec<String> = Vec::new();
    let n = pieces.len();
    let ghost sp = split_on(normalized@, '\n');
    let mut k: usize = 0;
    while k < n
        invariant
            k <= n,
            n == pieces@.len(),
            n == sp.len(),
            forall|j: int| 0 <= j < n ==> #[trigger] pieces@[j]@ == sp[j],
            views(strs@) == sp.take(k as int),
        decreases n - k,
    {
        let ghost before = strs@;
        strs.push(string_from_chars(pieces[k].as_slice()));
        assert(views(strs@) =~= views(before).push(sp[k as int]));
        assert(sp.take(k + 1) =~= sp.take(k as int).push(sp[k as int]));
        k = k + 1;
    }
    assert(sp.take(n as int) =~= sp);
    append_joined(out, &strs, "\n#linebreak()\n");
    append_str(out, "\n");
}

/// Appends `text` to `out`, a Typst line break between its lines.
pub fn push_multiline_typst(out: &mut String, text: &str)
    ensures
        final(out)@ == old(out)@ + multiline(text@),
{
    let mut v = chars_of(out.as_str());
    append_multiline(&mut v, text);
    *out = string_from_chars(v.as_slice());
}

/// `label: ` followed by the lines of `text`, Typst line breaks between them.
pub open spec fn labeled_multiline(label: Seq<char>, text: Seq<char>) -> Seq<char> {
    label + ": "@ + multiline(text)
}

fn append_labeled_multiline(out: &mut Vec<char>, label: &str, text: &str)
    ensures
        final(out)@ == old(out)@ + labeled_multiline(label@, text@),
{
    let ghost start = out@;
    append_str(out, label);
    append_str(out, ": ");
    append_multiline(out, text);
    assert(out@ =~= start + labeled_multiline(label@, text@));
}

/// Appends `label: text` to `out`, keeping the line breaks of `text`.
pub fn push_labeled_multiline_typst(out: &mut String, label: &str, text: &str)
    ensures
        final(out)@ == old(out)@ + labeled_multiline(label@, text@),
{
    let mut v = chars_of(out.as_str());
    append_labeled_multiline(&mut v, label, text);
    *out = string_from_chars(v.as_slice());
}

// ── markdown tables ──────────────────────────────────────────────────

/// `s` without leading `|` characters.
pub open spec fn strip_leading_pipes(s: Seq<char>) -> Seq<char>
    decreases s.len(),
{
    if s.len() > 0 && s[0] == '|' {
        strip_leading_pipes(s.drop_first())
    } else {
        s
    }
}

/// `s` without trailing `|` characters.
pub open spec fn strip_trailing_pipes(s: Seq<char>) -> Seq<char>
    decreases s.len(),
{
    if s.len() > 0 && s.last() == '|' {
        strip_trailing_pipes(s.drop_last())
    } else {
        s
    }
}

/// `s` without `|` at either end (`str::trim_matches('|')`).
pub open spec fn strip_pipes(s: Seq<char>) -> Seq<char> {
    strip_trailing_pipes(strip_leading_pipes(s))
}

fn strip_pipe_chars(v: &[char]) -> (r: Vec<char>)
    ensures
        r@ == strip_pipes(v@),
{
    let n = v.len();
    let mut i: usize = 0;
    assert(v@.skip(0) =~= v@);
    while i < n && v[i] == '|'
        invariant
            i <= n,
            n == v@.len(),
            strip_leading_pipes(v@) == strip_leading_pipes(v@.skip(i as int)),
        decreases n - i,
    {
        assert(v@.skip(i as int).drop_first() =~= v@.skip(i + 1));
        i = i + 1;
    }
    let ghost t = v@.skip(i as int);
    assert(strip_leading_pipes(t) == t);
    let mut j: usize = n;
    assert(v@.subrange(i as int, n as int) =~= t);
    while j > i && v[j - 1] == '|'
        invariant
            i <= j <= n,
            n == v@.len(),
            t == v@.skip(i as int),
            strip_trailing_pipes(t) == strip_trailing_pipes(v@.subrange(i as int, j as int)),
        decreases j,
    {
        assert(v@.subrange(i as int, j as int).drop_last() =~= v@.subrange(i as int, j - 1));
        j = j - 1;
    }
    copy_range(v, i, j)
}

/// The cells of a table row: the trimmed pieces between `|` after dropping
/// the outer pipes.
pub open spec fn table_cells(line: Seq<char>) -> Seq<Seq<char>> {
    split_on(strip_pipes(trim(line)), '|').map_values(|c: Seq<char>| trim(c))
}

/// Splits a markdown table row into its trimmed cells.
pub fn parse_table_row(line: &str) -> (r: Vec<String>)
    ensures
        views(r@) == table_cells(line@),
{
    let v = chars_of(line);
    let t = trim_chars(v.as_slice());
    let inner = strip_pipe_chars(t.as_slice());
    let pieces = split_chars(inner.as_slice(), '|');
    let ghost sp = split_on(inner@, '|');
    let n = pieces.len();
    let mut out: Vec<String> = Vec::new();
    let mut k: usize = 0;
    while k < n
        invariant
            k <= n,
            n == pieces@.len(),
            n == sp.len(),
            forall|j: int| 0 <= j < n ==> #[trigger] pieces@[j]@ == sp[j],
            views(out@) == sp.take(k as int).map_values(|c: Seq<char>| trim(c)),
        decreases n - k,
    {
        let cell = trim_chars(pieces[k].as_slice());
        let ghost before = out@;
        out.push(string_from_chars(cell.as_slice()));
        assert(views(out@) =~= views(before).push(trim(sp[k as int])));
        assert(sp.take(k + 1).map_values(|c: Seq<char>| trim(c)) =~= sp.take(k as int).map_values(
            |c: Seq<char>| trim(c),
        ).push(trim(sp[k as int])));
        k = k + 1;
    }
    assert(sp.take(n as int) =~= sp);
    out
}

/// Whether a line looks like a table row: at least two `|`.
pub open spec fn is_table_row(line: Seq<char>) -> bool {
    count_char(trim(line), '|') >= 2
}

/// Whether a line looks like a markdown table row.
pub fn looks_like_table_row(line: &str) -> (b: bool)
    ensures
        b == is_table_row(line@),
{
    let v = chars_of(line);
    let t = trim_chars(v.as_slice());
    count_of(t.as_slice(), '|') >= 2
}

/// Characters a separator row is made of.
pub open spec fn separator_char(c: char) -> bool {
    c == '|' || c == '-' || c == ':' || c == ' ' || c == '\t'
}

/// Whether a line is a table separator row such as `| --- | :-: |`.
pub open spec fn is_separator_row(line: Seq<char>) -> bool {
    let t = trim(line);
    is_table_row(t) && forall|k: int| 0 <= k < t.len() ==> separator_char(#[trigger] t[k])
}

/// Whether a line is a markdown separator row.
pub fn looks_like_separator_row(line: &str) -> (b: bool)
    ensures
        b == is_separator_row(line@),
{
    let v = chars_of(line);
    let t = trim_chars(v.as_slice());
    let ts = string_from_chars(t.as_slice());
    if !looks_like_table_row(ts.as_str()) {
        return false;
    }
    let n = t.len();
    let mut k: usize = 0;
    while k < n
        invariant
            k <= n,
            n == t@.len(),
            t@ == trim(line@),
            forall|x: int| 0 <= x < k ==> separator_char(#[trigger] t@[x]),
        decreases n - k,
    {
        let c = t[k];
        if !(c == '|' || c == '-' || c == ':' || c == ' ' || c == '\t') {
            assert(!separator_char(t@[k as int]));
            return false;
        }
        k = k + 1;
    }
    true
}

/// The separator row for `columns` columns.
pub open spec fn separator_row(columns: nat) -> Seq<char> {
    "| "@ + join(Seq::new(columns, |i: int| "---"@), " | "@) + " |"@
}

/// A markdown separator row for `columns` columns.
pub fn markdown_separator_row(columns: usize) -> (r: String)
    ensures
        r@ == separator_row(columns as nat),
{
    let mut dashes: Vec<&str> = Vec::new();
    let mut k: usize = 0;
    while k < columns
        invariant
            k <= columns,
            str_views(dashes@) == Seq::new(k as nat, |i: int| "---"@),
        decreases columns - k,
    {
        let ghost before = dashes@;
        dashes.push("---");
        assert(str_views(dashes@) =~= str_views(before).push("---"@));
        assert(str_views(dashes@) =~= Seq::new((k + 1) as nat, |i: int| "---"@));
        k = k + 1;
    }
    let mut out: Vec<char> = Vec::new();
    append_str(&mut out, "| ");
    append_joined_strs(&mut out, &dashes, " | ");
    append_str(&mut out, " |");
    string_from_chars(out.as_slice())
}

/// How many cells of a row hold something other than white space or `│`.
pub open spec fn filled_cells(cells: Seq<Seq<char>>) -> nat
    decreases cells.len(),
{
    if cells.len() == 0 {
        0
    } else {
        filled_cells(cells.drop_last()) + if trim(cells.last()).len() > 0 && trim(cells.last())
            != "│"@ {
            1nat
        } else {
            0nat
        }
    }
}

/// How many non-empty cells a row has.
pub fn non_empty_table_cells(line: &str) -> (r: usize)
    ensures
        r == filled_cells(table_cells(line@)),
{
    let cells = parse_table_row(line);
    let n = cells.len();
    let mut count: usize = 0;
    let mut k: usize = 0;
    while k < n
        invariant
            k <= n,
            n == cells@.len(),
            count <= k,
            count == filled_cells(views(cells@).take(k as int)),
            views(cells@) == table_cells(line@),
        decreases n - k,
    {
        assert(views(cells@).take(k + 1).drop_last() =~= views(cells@).take(k as int));
        assert(views(cells@).take(k + 1).last() == cells@[k as int]@);
        let cv = chars_of(cells[k].as_str());
        let t = trim_chars(cv.as_slice());
        let ts = string_from_chars(t.as_slice());
        if t.len() > 0 && !crate::text::same_text(ts.as_str(), "│") {
            count = count + 1;
        }
        k = k + 1;
    }
    assert(views(cells@).take(n as int) =~= views(cells@));
    count
}

/// A table row cleaned up: box-drawing bars made pipes, parentheses rejoined
/// across line breaks, white space collapsed, an empty leading cell dropped.
pub open spec fn cleaned_row(line: Seq<char>) -> Seq<char> {
    let row = replace_all(
        replace_all(replace_all(line, "│"@, "|"@), "(\n"@, "("@),
        "\n)"@,
        ")"@,
    );
    let collapsed = join(words(row), " "@);
    if is_table_row(collapsed) {
        let cells = table_cells(collapsed);
        let kept = if cells.len() >= 2 && trim(cells[0]).len() == 0 {
            cells.drop_first()
        } else {
            cells
        };
        "| "@ + join(kept, " | "@) + " |"@
    } else {
        collapsed
    }
}

/// Cleans up a table row.
pub fn clean_table_row(line: &str) -> (r: String)
    ensures
        r@ == cleaned_row(line@),
{
    proof {
        reveal_strlit("│");
        reveal_strlit("(\n");
        reveal_strlit("\n)");
    }
    let v = chars_of(line);
    let a = replace_chars(v.as_slice(), "│", "|");
    let b = replace_chars(a.as_slice(), "(\n", "(");
    let c = replace_chars(b.as_slice(), "\n)", ")");
    let ws = split_words(c.as_slice());
    let mut cv: Vec<char> = Vec::new();
    append_joined(&mut cv, &ws, " ");
    let collapsed = string_from_chars(cv.as_slice());
    if looks_like_table_row(collapsed.as_str()) {
        let cells = parse_table_row(collapsed.as_str());
        let mut kept: Vec<String> = Vec::new();
        let n = cells.len();
        let mut start: usize = 0;
        if n >= 2 {
            let c0 = chars_of(cells[0].as_str());
            let t0 = trim_chars(c0.as_slice());
            if t0.len() == 0 {
                start = 1;
            }
        }
        let ghost cs = views(cells@);
        let ghost target = if cs.len() >= 2 && trim(cs[0]).len() == 0 {
            cs.drop_first()
        } else {
            cs
        };
        assert(target =~= cs.skip(start as int));
        let mut k: usize = start;
        while k < n
            invariant
                start <= k <= n,
                n == cells@.len(),
                cs == views(cells@),
                views(kept@) == cs.subrange(start as int, k as int),
            decreases n - k,
        {
            let ghost before = kept@;
            kept.push(cells[k].clone());
            assert(views(kept@) =~= views(before).push(cells@[k as int]@));
            assert(cs.subrange(start as int, k + 1) =~= cs.subrange(start as int, k as int).push(
                cs[k as int],
            ));
            k = k + 1;
        }
        assert(cs.subrange(start as int, n as int) =~= target);
        let mut out: Vec<char> = Vec::new();
        append_str(&mut out, "| ");
        append_joined(&mut out, &kept, " | ");
        append_str(&mut out, " |");
        string_from_chars(out.as_slice())
    } else {
        collapsed
    }
}

/// The separator a table row needs after it: when it and the next line are
/// table rows, the next is no separator, and it has at least two cells.
pub open spec fn separator_after(lines: Seq<Seq<char>>, i: int) -> Seq<Seq<char>> {
    if i + 1 < lines.len() && is_table_row(lines[i]) && !is_separator_row(lines[i + 1])
        && is_table_row(lines[i + 1]) && table_cells(lines[i]).len() >= 2 {
        seq![separator_row(table_cells(lines[i]).len())]
    } else {
        Seq::empty()
    }
}

/// The first `n` lines with the missing separators inserted.
pub open spec fn with_separators(lines: Seq<Seq<char>>, n: int) -> Seq<Seq<char>>
    decreases n,
{
    if n <= 0 {
        Seq::empty()
    } else {
        with_separators(lines, n - 1) + seq![lines[n - 1]] + separator_after(lines, n - 1)
    }
}

/// Inserts a separator row under every table row followed by another table row.
pub fn insert_missing_table_separators(lines: &Vec<String>) -> (r: Vec<String>)
    ensures
        views(r@) == with_separators(views(lines@), lines@.len() as int),
{
    let ghost ls = views(lines@);
    let n = lines.len();
    let mut out: Vec<String> = Vec::new();
    let mut i: usize = 0;
    while i < n
        invariant
            i <= n,
            n == lines@.len(),
            ls == views(lines@),
            views(out@) == with_separators(ls, i as int),
        decreases n - i,
    {
        let ghost before = out@;
        out.push(lines[i].clone());
        assert(views(out@) =~= views(before).push(ls[i as int]));
        let mut extra: Vec<String> = Vec::new();
        if i + 1 < n && looks_like_table_row(lines[i].as_str()) && !looks_like_separator_row(
            lines[i + 1].as_str(),
        ) && looks_like_table_row(lines[i + 1].as_str()) {
            let cols = parse_table_row(lines[i].as_str()).len();
            if cols >= 2 {
                extra.push(markdown_separator_row(cols));
            }
        }
        assert(views(extra@) =~= separator_after(ls, i as int));
        let ghost mid = out@;
        out.append(&mut extra);
        assert(views(out@) =~= views(mid) + separator_after(ls, i as int));
        assert(with_separators(ls, i + 1) =~= with_separators(ls, i as int) + seq![ls[i as int]]
            + separator_after(ls, i as int));
        i = i + 1;
    }
    out
}

/// A table row with fewer than two pipes or two filled cells, merged with the
/// non-blank lines after it (joined by a space) until it has them; `extra`
/// lines after line `i` were merged so far.
pub open spec fn merged_row(lines: Seq<Seq<char>>, i: int, buf: Seq<char>, extra: nat) -> (
    Seq<char>,
    nat,
)
    decreases lines.len() - (i + 1 + extra),
{
    let c = i + 1 + extra;
    if (count_char(buf, '|') < 2 || filled_cells(table_cells(buf)) < 2) && 0 <= c < lines.len() {
        let next = trim(lines[c]);
        if next.len() == 0 {
            (buf, extra)
        } else {
            merged_row(lines, i, buf + seq![' '] + next, extra + 1)
        }
    } else {
        (buf, extra)
    }
}

/// The offset from `j` of the first non-blank line at or after `j + d`.
pub open spec fn blank_run(lines: Seq<Seq<char>>, j: int, d: nat) -> Option<nat>
    decreases lines.len() - (j + d),
{
    let k = j + d;
    if k < 0 || k >= lines.len() {
        None
    } else if trim(lines[k]).len() == 0 {
        blank_run(lines, j, d + 1)
    } else {
        Some(d)
    }
}

/// The line that completes the header row `buf` into a two-row table: the
/// first non-blank line from `c`, when it is a table row, no separator, and
/// has at least as many cells as the header's two or more.
pub open spec fn pair_partner(lines: Seq<Seq<char>>, buf: Seq<char>, c: int) -> Option<int> {
    if 0 <= c < lines.len() {
        match blank_run(lines, c, 0) {
            Some(d) => {
                let k = c + d;
                let next = trim(lines[k]);
                let hc = table_cells(buf).len();
                if !is_separator_row(next) && is_table_row(next) && hc >= 2 && table_cells(
                    next,
                ).len() >= hc {
                    Some(k)
                } else {
                    None
                }
            },
            None => None,
        }
    } else {
        None
    }
}

/// The normalised lines from line `i` on, after the lines `out` so far.
pub open spec fn normalize_from(lines: Seq<Seq<char>>, i: int, out: Seq<Seq<char>>) -> Seq<
    Seq<char>,
>
    decreases lines.len() - i,
{
    if i < 0 || i >= lines.len() {
        out
    } else {
        let line = trim_end(lines[i]);
        if !is_table_row(line) {
            normalize_from(lines, i + 1, out.push(line))
        } else {
            let m = merged_row(lines, i, line, 0);
            let buf = m.0;
            let c = i + 1 + m.1;
            match pair_partner(lines, buf, c) {
                Some(k) => if i <= k < lines.len() {
                    normalize_from(
                        lines,
                        k + 1,
                        out + seq![
                            cleaned_row(buf),
                            separator_row(table_cells(buf).len()),
                            cleaned_row(trim(lines[k])),
                        ],
                    )
                } else {
                    out
                },
                None => if c <= lines.len() {
                    normalize_from(lines, c, out.push(cleaned_row(buf)))
                } else {
                    out
                },
            }
        }
    }
}

/// An optional index as an integer.
pub open spec fn int_opt(o: Option<usize>) -> Option<int> {
    match o {
        Some(k) => Some(k as int),
        None => None,
    }
}

/// `s` with its markdown tables repaired: rows split over lines merged, a
/// missing separator inserted under a header, rows cleaned up.
pub open spec fn normalized_tables(s: Seq<char>) -> Seq<char> {
    let lines = lines_of(unix_newlines(replace_all(s, "│"@, "|"@)));
    let out = normalize_from(lines, 0, Seq::empty());
    join(with_separators(out, out.len() as int), "\n"@)
}

/// Repairs the markdown tables that the model writes in question text.
#[verifier::rlimit(30)]
pub fn normalize_markdown_tables(s: &str) -> (r: String)
    ensures
        r@ == normalized_tables(s@),
{
    proof {
        reveal_strlit("│");
    }
    let v = chars_of(s);
    let a = replace_chars(v.as_slice(), "│", "|");
    let b = to_unix_newlines(a.as_slice());
    let lines = lines_chars(b.as_slice());
    let ghost ls = views(lines@);
    let n = lines.len();
    let mut out: Vec<String> = Vec::new();
    let mut i: usize = 0;
    assert(views(out@) =~= Seq::<Seq<char>>::empty());
    while i < n
        invariant
            i <= n,
            n == lines@.len(),
            ls == views(lines@),
            normalize_from(ls, i as int, views(out@)) == normalize_from(ls, 0, Seq::empty()),
        decreases n - i,
    {
        let ghost old_out = views(out@);
        let ghost i0 = i as int;
        let lv = chars_of(lines[i].as_str());
        let line = trim_end_chars(lv.as_slice());
        assert(ls[i as int] == lines@[i as int]@);
        assert(line@ == trim_end(ls[i0]));
        let line_s = string_from_chars(line.as_slice());
        if !looks_like_table_row(line_s.as_str()) {
            let ghost before = out@;
            out.push(line_s);
            assert(views(out@) =~= views(before).push(line@));
            assert(normalize_from(ls, i0, old_out) == normalize_from(ls, i0 + 1, views(out@)));
            i = i + 1;
        } else {
            let mut buf: Vec<char> = line;
            let mut extra: usize = 0;
            let mut done = false;
            let ghost target = merged_row(ls, i as int, buf@, 0);
            loop
                invariant
                    i < n,
                    n == lines@.len(),
                    ls == views(lines@),
                    i + 1 + extra <= n,
                    !done ==> merged_row(ls, i as int, buf@, extra as nat) == target,
                    done ==> target == (buf@, extra as nat),
                ensures
                    target == (buf@, extra as nat),
                    i + 1 + extra <= n,
                decreases n - (i + 1 + extra), (if done {
                    0int
                } else {
                    1int
                }),
            {
                if done {
                    break;
                }
                let bs = string_from_chars(buf.as_slice());
                let c = i + 1 + extra;
                if !((count_of(buf.as_slice(), '|') < 2 || non_empty_table_cells(bs.as_str()) < 2)
                    && c < n) {
                    done = true;
                } else {
                    let nv = chars_of(lines[c].as_str());
                    let next = trim_chars(nv.as_slice());
                    assert(ls[c as int] == lines@[c as int]@);
                    assert(next@ == trim(ls[c as int]));
                    if next.len() == 0 {
                        done = true;
                    } else {
                        let ghost old_buf = buf@;
                        buf.push(' ');
                        buf.extend_from_slice(next.as_slice());
                        assert(buf@ =~= old_buf + seq![' '] + next@);
                        extra = extra + 1;
                    }
                }
            }
            let c = i + 1 + extra;
            let bs = string_from_chars(buf.as_slice());
            assert(merged_row(ls, i0, line@, 0) == (bs@, extra as nat));
            let mut partner: Option<usize> = None;
            if c < n {
                let mut next_idx: usize = c;
                let mut searching = true;
                while searching && next_idx < n
                    invariant
                        c <= next_idx <= n,
                        c < n,
                        n == lines@.len(),
                        ls == views(lines@),
                        searching ==> blank_run(ls, c as int, 0) == blank_run(
                            ls,
                            c as int,
                            (next_idx - c) as nat,
                        ),
                        !searching ==> pair_partner(ls, bs@, c as int) == int_opt(partner),
                        partner matches Some(k) ==> c <= k < n,
                        searching ==> partner is None,
                    decreases n - next_idx, (if searching {
                        1int
                    } else {
                        0int
                    }),
                {
                    let nv = chars_of(lines[next_idx].as_str());
                    let next = trim_chars(nv.as_slice());
                    assert(ls[next_idx as int] == lines@[next_idx as int]@);
                    let ghost d = (next_idx - c) as nat;
                    assert(next@ == trim(ls[next_idx as int]));
                    if next.len() == 0 {
                        assert(blank_run(ls, c as int, d) == blank_run(ls, c as int, d + 1));
                        next_idx = next_idx + 1;
                    } else {
                        assert(blank_run(ls, c as int, d) == Some(d));
                        let ns = string_from_chars(next.as_slice());
                        if !looks_like_separator_row(ns.as_str()) && looks_like_table_row(
                            ns.as_str(),
                        ) {
                            let next_cols = parse_table_row(ns.as_str()).len();
                            let header_cols = parse_table_row(bs.as_str()).len();
                            if header_cols >= 2 && next_cols >= header_cols {
                                partner = Some(next_idx);
                            }
                        }
                        searching = false;
                    }
                }
                if searching {
                    assert(blank_run(ls, c as int, (n - c) as nat) is None);
                    assert(pair_partner(ls, bs@, c as int) is None);
                }
            }
            assert(pair_partner(ls, bs@, c as int) == int_opt(partner));
            match partner {
                Some(k) => {
                    let nv = chars_of(lines[k].as_str());
                    let next = trim_chars(nv.as_slice());
                    let ns = string_from_chars(next.as_slice());
                    assert(ls[k as int] == lines@[k as int]@);
                    let ghost before = out@;
                    out.push(clean_table_row(bs.as_str()));
                    let header_cols = parse_table_row(bs.as_str()).len();
                    out.push(markdown_separator_row(header_cols));
                    out.push(clean_table_row(ns.as_str()));
                    assert(views(out@) =~= views(before) + seq![
                        cleaned_row(bs@),
                        separator_row(table_cells(bs@).len()),
                        cleaned_row(trim(ls[k as int])),
                    ]);
                    assert(normalize_from(ls, i0, old_out) == normalize_from(ls, k + 1, views(out@)));
                    i = k + 1;
                },
                None => {
                    let ghost before = out@;
                    out.push(clean_table_row(bs.as_str()));
                    assert(views(out@) =~= views(before).push(cleaned_row(bs@)));
                    assert(normalize_from(ls, i0, old_out) == normalize_from(ls, c as int, views(out@)));
                    i = c;
                },
            }
        }
    }
    let fixed = insert_missing_table_separators(&out);
    let mut r: Vec<char> = Vec::new();
    append_joined(&mut r, &fixed, "\n");
    string_from_chars(r.as_slice())
}

/// How many table rows follow, one after another, from line `j`.
pub open spec fn table_run(lines: Seq<Seq<char>>, j: int) -> nat
    decreases lines.len() - j,
{
    if 0 <= j < lines.len() && is_table_row(lines[j]) {
        1 + table_run(lines, j + 1)
    } else {
        0
    }
}

/// The rows of the table that starts `lines`: the header, then the rows after
/// the separator.
pub open spec fn table_rows(lines: Seq<Seq<char>>) -> Seq<Seq<Seq<char>>> {
    seq![table_cells(lines[0])] + Seq::new(table_run(lines, 2), |k: int| table_cells(lines[2 + k]))
}

/// The widest row's cell count.
pub open spec fn max_columns(rows: Seq<Seq<Seq<char>>>) -> nat
    decreases rows.len(),
{
    if rows.len() == 0 {
        0
    } else if max_columns(rows.drop_last()) >= rows.last().len() {
        max_columns(rows.drop_last())
    } else {
        rows.last().len()
    }
}

/// The markup of cell `idx` of a row, empty past the row's end.
pub open spec fn cell_markup(row: Seq<Seq<char>>, idx: int) -> Seq<char> {
    "["@ + inline_markup(
        if idx < row.len() {
            row[idx]
        } else {
            Seq::empty()
        },
    ) + "]"@
}

/// The cell markups of all rows, each padded to `cols` cells.
pub open spec fn table_cell_markups(rows: Seq<Seq<Seq<char>>>, cols: nat) -> Seq<Seq<char>>
    decreases rows.len(),
{
    if rows.len() == 0 {
        Seq::empty()
    } else {
        table_cell_markups(rows.drop_last(), cols) + Seq::new(
            cols,
            |idx: int| cell_markup(rows.last(), idx),
        )
    }
}

/// The table at the start of `lines`, when there is one: a header row, a
/// separator row and the table rows after it. Gives how many lines it spans
/// and its Typst markup.
pub open spec fn markdown_table(lines: Seq<Seq<char>>) -> Option<(nat, Seq<char>)> {
    if lines.len() < 2 || !is_table_row(lines[0]) || !is_separator_row(lines[1]) {
        None
    } else {
        let rows = table_rows(lines);
        let cols = max_columns(rows);
        if rows[0].len() == 0 {
            None
        } else {
            Some(
                (
                    (2 + table_run(lines, 2)) as nat,
                    "#table(columns: "@ + decimal(cols) + ", inset: 6pt, stroke: 0.5pt + luma(180), "@
                        + join(table_cell_markups(rows, cols), ", "@) + ")"@,
                ),
            )
        }
    }
}

/// The contents of rows of cells.
pub open spec fn rows_views(v: Seq<Vec<String>>) -> Seq<Seq<Seq<char>>> {
    v.map_values(|r: Vec<String>| views(r@))
}

/// Renders the markdown table starting at line `start`, if one does.
pub fn markdown_table_at(lines: &Vec<String>, start: usize) -> (r: Option<(usize, String)>)
    requires
        start <= lines@.len(),
    ensures
        r matches Some(p) ==> markdown_table(views(lines@).skip(start as int)) == Some(
            (p.0 as nat, p.1@),
        ),
        r matches Some(p) ==> 2 <= p.0 <= lines@.len() - start,
        r is None ==> markdown_table(views(lines@).skip(start as int)) is None,
{
    let ghost ls = views(lines@).skip(start as int);
    let n = lines.len();
    if n - start < 2 {
        return None;
    }
    assert(ls[0] == lines@[start as int]@);
    assert(ls[1] == lines@[start + 1]@);
    if !looks_like_table_row(lines[start].as_str()) || !looks_like_separator_row(
        lines[start + 1].as_str(),
    ) {
        return None;
    }
    let mut rows: Vec<Vec<String>> = Vec::new();
    rows.push(parse_table_row(lines[start].as_str()));
    let mut consumed: usize = 2;
    assert(rows_views(rows@) =~= seq![table_cells(ls[0])] + Seq::new(
        (consumed - 2) as nat,
        |k: int| table_cells(ls[2 + k]),
    ));
    while start + consumed < n && looks_like_table_row(lines[start + consumed].as_str())
        invariant
            2 <= consumed,
            start + consumed <= n,
            n == lines@.len(),
            ls == views(lines@).skip(start as int),
            rows_views(rows@) == seq![table_cells(ls[0])] + Seq::new(
                (consumed - 2) as nat,
                |k: int| table_cells(ls[2 + k]),
            ),
            table_run(ls, 2) == (consumed - 2) + table_run(ls, consumed as int),
        decreases n - consumed,
    {
        assert(ls[consumed as int] == lines@[start + consumed]@);
        let ghost before = rows@;
        let row = parse_table_row(lines[start + consumed].as_str());
        rows.push(row);
        assert(rows_views(rows@) =~= rows_views(before).push(table_cells(ls[consumed as int])));
        assert(rows_views(rows@) =~= seq![table_cells(ls[0])] + Seq::new(
            (consumed + 1 - 2) as nat,
            |k: int| table_cells(ls[2 + k]),
        ));
        consumed = consumed + 1;
    }
    if start + consumed < n {
        assert(ls[consumed as int] == lines@[start + consumed]@);
    }
    assert(table_run(ls, consumed as int) == 0);
    assert(rows_views(rows@) =~= table_rows(ls));
    if rows[0].len() == 0 {
        return None;
    }
    let nrows = rows.len();
    let mut columns: usize = 0;
    let mut r: usize = 0;
    while r < nrows
        invariant
            r <= nrows,
            nrows == rows@.len(),
            rows_views(rows@) == table_rows(ls),
            columns == max_columns(rows_views(rows@).take(r as int)),
        decreases nrows - r,
    {
        assert(rows_views(rows@).take(r + 1).drop_last() =~= rows_views(rows@).take(r as int));
        assert(rows_views(rows@).take(r + 1).last() == views(rows@[r as int]@));
        if rows[r].len() > columns {
            columns = rows[r].len();
        }
        r = r + 1;
    }
    assert(rows_views(rows@).take(nrows as int) =~= rows_views(rows@));
    let ghost rv = rows_views(rows@);
    let mut cells: Vec<String> = Vec::new();
    let mut r2: usize = 0;
    while r2 < nrows
        invariant
            r2 <= nrows,
            nrows == rows@.len(),
            rv == rows_views(rows@),
            columns == max_columns(rv),
            views(cells@) == table_cell_markups(rv.take(r2 as int), columns as nat),
        decreases nrows - r2,
    {
        let row = &rows[r2];
        assert(views(row@) == rv[r2 as int]);
        let ghost base = views(cells@);
        let mut idx: usize = 0;
        while idx < columns
            invariant
                idx <= columns,
                r2 < nrows,
                nrows == rows@.len(),
                row == rows@[r2 as int],
                views(row@) == rv[r2 as int],
                views(cells@) == base + Seq::new(
                    idx as nat,
                    |x: int| cell_markup(rv[r2 as int], x),
                ),
            decreases columns - idx,
        {
            let mut cm: Vec<char> = Vec::new();
            cm.push('[');
            if idx < row.len() {
                let cv = chars_of(row[idx].as_str());
                assert(views(row@)[idx as int] == row@[idx as int]@);
                append_inline(&mut cm, cv.as_slice());
            } else {
                let empty: Vec<char> = Vec::new();
                append_inline(&mut cm, empty.as_slice());
            }
            cm.push(']');
            proof {
                reveal_strlit("[");
                reveal_strlit("]");
            }
            assert(cm@ =~= cell_markup(rv[r2 as int], idx as int));
            let ghost before = cells@;
            cells.push(string_from_chars(cm.as_slice()));
            assert(views(cells@) =~= views(before).push(cm@));
            assert(views(cells@) =~= base + Seq::new(
                (idx + 1) as nat,
                |x: int| cell_markup(rv[r2 as int], x),
            ));
            idx = idx + 1;
        }
        assert(rv.take(r2 + 1).drop_last() =~= rv.take(r2 as int));
        assert(rv.take(r2 + 1).last() == rv[r2 as int]);
        r2 = r2 + 1;
    }
    assert(rv.take(nrows as int) =~= rv);
    let mut out: Vec<char> = Vec::new();
    append_str(&mut out, "#table(columns: ");
    append_decimal(&mut out, columns);
    append_str(&mut out, ", inset: 6pt, stroke: 0.5pt + luma(180), ");
    append_joined(&mut out, &cells, ", ");
    append_str(&mut out, ")");
    Some((consumed, string_from_chars(out.as_slice())))
}

/// Parses a markdown table at the start of `lines` into Typst markup; gives how
/// many lines it spans.
pub fn parse_markdown_table(lines: &[&str]) -> (r: Option<(usize, String)>)
    ensures
        r matches Some(p) ==> markdown_table(str_views(lines@)) == Some((p.0 as nat, p.1@)),
        r is None ==> markdown_table(str_views(lines@)) is None,
{
    let mut owned: Vec<String> = Vec::new();
    let n = lines.len();
    let mut k: usize = 0;
    while k < n
        invariant
            k <= n,
            n == lines@.len(),
            views(owned@) == str_views(lines@).take(k as int),
        decreases n - k,
    {
        let ghost before = owned@;
        owned.push(lines[k].to_owned());
        assert(views(owned@) =~= views(before).push(lines@[k as int]@));
        assert(str_views(lines@).take(k + 1) =~= str_views(lines@).take(k as int).push(
            lines@[k as int]@,
        ));
        k = k + 1;
    }
    assert(str_views(lines@).take(n as int) =~= str_views(lines@));
    assert(views(owned@).skip(0) =~= views(owned@));
    markdown_table_at(&owned, 0)
}

/// One part of a question's text as Typst markup, from line `i` on: a table
/// where one starts, a small gap for a blank line, else the line itself.
pub open spec fn question_parts(lines: Seq<Seq<char>>, i: int) -> Seq<Seq<char>>
    decreases lines.len() - i,
{
    if i < 0 || i >= lines.len() {
        Seq::empty()
    } else {
        match markdown_table(lines.skip(i)) {
            Some(p) => if 0 < p.0 && i + p.0 <= lines.len() {
                seq![p.1] + question_parts(lines, i + p.0)
            } else {
                Seq::empty()
            },
            None => seq![
                if trim(lines[i]).len() == 0 {
                    "#v(4pt)"@
                } else {
                    inline_markup(lines[i])
                },
            ] + question_parts(lines, i + 1),
        }
    }
}

/// A question's text as Typst markup: cleaned, tables repaired and rendered,
/// lines joined by line breaks.
pub open spec fn question_markup(s: Seq<char>) -> Seq<char> {
    join(
        question_parts(lines_of(unix_newlines(normalized_tables(sanitized(s)))), 0),
        "\n#linebreak()\n"@,
    )
}

/// Renders a question's text as Typst markup.
pub fn render_question_markup(s: &str) -> (r: String)
    ensures
        r@ == question_markup(s@),
{
    let clean = sanitize_text(s);
    let tables = normalize_markdown_tables(clean.as_str());
    let tv = chars_of(tables.as_str());
    let text = to_unix_newlines(tv.as_slice());
    let lines = lines_chars(text.as_slice());
    let ghost ls = views(lines@);
    let n = lines.len();
    let mut parts: Vec<String> = Vec::new();
    let mut i: usize = 0;
    assert(views(parts@) =~= Seq::<Seq<char>>::empty());
    assert(Seq::<Seq<char>>::empty() + question_parts(ls, 0) =~= question_parts(ls, 0));
    while i < n
        invariant
            i <= n,
            n == lines@.len(),
            ls == views(lines@),
            views(parts@) + question_parts(ls, i as int) == question_parts(ls, 0),
        decreases n - i,
    {
        let ghost before = views(parts@);
        match markdown_table_at(&lines, i) {
            Some((consumed, table_markup)) => {
                parts.push(table_markup);
                assert(views(parts@) =~= before.push(table_markup@));
                assert(before + question_parts(ls, i as int) =~= views(parts@) + question_parts(
                    ls,
                    i + consumed,
                ));
                i = i + consumed;
            },
            None => {
                let lv = chars_of(lines[i].as_str());
                let t = trim_chars(lv.as_slice());
                assert(ls[i as int] == lines@[i as int]@);
                let piece = if t.len() == 0 {
                    "#v(4pt)".to_owned()
                } else {
                    render_inline_markup(lines[i].as_str())
                };
                parts.push(piece);
                assert(views(parts@) =~= before.push(piece@));
                assert(before + question_parts(ls, i as int) =~= views(parts@) + question_parts(
                    ls,
                    i + 1,
                ));
                i = i + 1;
            },
        }
    }
    assert(views(parts@) =~= question_parts(ls, 0));
    let mut out: Vec<char> = Vec::new();
    append_joined(&mut out, &parts, "\n#linebreak()\n");
    string_from_chars(out.as_slice())
}

// ── the practice sheet ───────────────────────────────────────────────

/// The page setup, the title and the date line of a sheet.
pub open spec fn sheet_header(subject: Seq<char>, font: Seq<char>, date: Seq<char>) -> Seq<char> {
    "#set page(paper: \"a4\", margin: (left: 20mm, top: 20mm, right: 20mm, bottom: 20mm), footer: context { align(right)[#text(size: 9pt)[第 #counter(page).display(\"1\") 页 / 共 #counter(page).final().at(0) 页]] })\n"@ + "#set text(font: \""@ + font + "\", size: 11pt)\n"@ + "#set par(leading: 1em, justify: false)\n\n"@ + "#align(center)[\n"@ + "  #text(size: 18pt, weight: \"bold\")[巩固练习 - "@ + subject + "]\n"@ + "]\n\n"@
        + "#align(center)[#text(size: 10pt, fill: luma(120))[生成时间："@ + date + "]]\n\n"@ + "#v(8pt)\n\n"@
}

/// The heading of question or answer `n`.
pub open spec fn numbered_heading(n: nat) -> Seq<char> {
    "#text(size: 14pt, weight: \"bold\")[第 "@ + decimal(n) + " 题]\n"@ + "#v(4pt)\n\n"@
}

/// The image line of a question, when its image was registered.
pub open spec fn image_lines(q: PracticeQuestion, registered: Seq<Seq<char>>) -> Seq<char> {
    match image_markup(q, registered) {
        Some(m) => "\n#v(4pt)\n"@ + m + "\n"@,
        None => Seq::empty(),
    }
}

/// The note line of a question, when its text embeds an image note.
pub open spec fn note_lines(q: PracticeQuestion) -> Seq<char> {
    match split_description(q.question@).1 {
        Some(note) => "#v(2pt)\n"@ + note_markup(note) + "\n"@,
        None => Seq::empty(),
    }
}

/// The block of question `i` on the sheet.
pub open spec fn question_block(q: PracticeQuestion, i: nat, registered: Seq<Seq<char>>) -> Seq<char> {
    numbered_heading(i + 1) + question_markup(split_description(q.question@).0) + "\n"@ + image_lines(
        q,
        registered,
    ) + note_lines(q) + "\n#v(10pt)\n\n"@
}

/// The blocks of the first `n` questions.
pub open spec fn question_blocks(qs: Seq<PracticeQuestion>, n: int, registered: Seq<Seq<char>>) -> Seq<char>
    decreases n,
{
    if n <= 0 {
        Seq::empty()
    } else {
        question_blocks(qs, n - 1, registered) + question_block(qs[n - 1], (n - 1) as nat, registered)
    }
}

/// The page break and the title of the answer part.
pub open spec fn answers_header(subject: Seq<char>, date: Seq<char>) -> Seq<char> {
    "#pagebreak()\n\n"@ + "#align(center)[\n"@ + "  #text(size: 18pt, weight: \"bold\")[参考答案与知识点 - "@ + subject + "]\n"@ + "]\n\n"@ + "#align(center)[#text(size: 10pt, fill: luma(120))[生成时间："@ + date + "]]\n\n"@
        + "#v(8pt)\n\n"@
}

/// The answer block of question `i`: its answer and its knowledge points.
pub open spec fn answer_block(q: PracticeQuestion, i: nat) -> Seq<char> {
    numbered_heading(i + 1) + labeled_multiline("答案"@, escaped(sanitized(q.answer@))) + "知识点: "@
        + escaped(sanitized(join(views(q.knowledge_points@), "、"@))) + "\n"@ + "\n#v(10pt)\n\n"@
}

/// The answer blocks of the first `n` questions.
pub open spec fn answer_blocks(qs: Seq<PracticeQuestion>, n: int) -> Seq<char>
    decreases n,
{
    if n <= 0 {
        Seq::empty()
    } else {
        answer_blocks(qs, n - 1) + answer_block(qs[n - 1], (n - 1) as nat)
    }
}

/// The Typst source of a practice sheet: the questions, then, on a new page,
/// the answers and knowledge points; only the title when there are no questions.
pub open spec fn typst_sheet(
    qs: Seq<PracticeQuestion>,
    subject: Seq<char>,
    font_family: Seq<char>,
    registered: Seq<Seq<char>>,
    date: Seq<char>,
) -> Seq<char> {
    let subj = escaped(sanitized(subject));
    let head = sheet_header(subj, escaped(font_family), date) + question_blocks(qs, qs.len() as int, registered);
    if qs.len() == 0 {
        head
    } else {
        head + answers_header(subj, date) + answer_blocks(qs, qs.len() as int)
    }
}

fn append_question_block(m: &mut Vec<char>, q: &PracticeQuestion, i: usize, registered: &Vec<String>)
    requires
        i < usize::MAX,
    ensures
        final(m)@ == old(m)@ + question_block(*q, i as nat, views(registered@)),
{
    let ghost before = m@;
    let ghost reg = views(registered@);
    append_str(m, "#text(size: 14pt, weight: \"bold\")[第 ");
    append_decimal(m, i + 1);
    append_str(m, " 题]\n");
    append_str(m, "#v(4pt)\n\n");
    let (question_text, image_note) = split_image_description(q.question.as_str());
    let qm = render_question_markup(question_text.as_str());
    append_str(m, qm.as_str());
    append_str(m, "\n");
    let ghost after_text = m@;
    match question_image_markup(q, registered) {
        Some(im) => {
            append_str(m, "\n#v(4pt)\n");
            append_str(m, im.as_str());
            append_str(m, "\n");
        },
        None => {},
    }
    assert(m@ =~= after_text + image_lines(*q, reg));
    let ghost after_image = m@;
    match image_note {
        Some(note) => {
            append_str(m, "#v(2pt)\n");
            let nm = image_note_markup(note.as_str());
            append_str(m, nm.as_str());
            append_str(m, "\n");
        },
        None => {},
    }
    assert(m@ =~= after_image + note_lines(*q));
    append_str(m, "\n#v(10pt)\n\n");
    assert(m@ =~= before + question_block(*q, i as nat, reg));
}

/// Builds the Typst source of a practice sheet. `generated_date` is the date
/// printed under the titles; `registered` holds the virtual paths of the
/// images that were loaded.
pub fn build_typst_markup(
    questions: &[PracticeQuestion],
    subject: &str,
    font_family: &str,
    registered: &Vec<String>,
    generated_date: &str,
) -> (r: String)
    ensures
        r@ == typst_sheet(questions@, subject@, font_family@, views(registered@), generated_date@),
{
    let subj_clean = sanitize_text(subject);
    let sv = chars_of(subj_clean.as_str());
    let mut subj: Vec<char> = Vec::new();
    append_escaped(&mut subj, sv.as_slice());
    let subj_s = string_from_chars(subj.as_slice());
    let fv = chars_of(font_family);
    let mut font: Vec<char> = Vec::new();
    append_escaped(&mut font, fv.as_slice());
    let font_s = string_from_chars(font.as_slice());
    let ghost reg = views(registered@);
    let mut m: Vec<char> = Vec::new();
    append_str(&mut m, "#set page(paper: \"a4\", margin: (left: 20mm, top: 20mm, right: 20mm, bottom: 20mm), footer: context { align(right)[#text(size: 9pt)[第 #counter(page).display(\"1\") 页 / 共 #counter(page).final().at(0) 页]] })\n");
    append_str(&mut m, "#set text(font: \"");
    append_str(&mut m, font_s.as_str());
    append_str(&mut m, "\", size: 11pt)\n");
    append_str(&mut m, "#set par(leading: 1em, justify: false)\n\n");
    append_str(&mut m, "#align(center)[\n");
    append_str(&mut m, "  #text(size: 18pt, weight: \"bold\")[巩固练习 - ");
    append_str(&mut m, subj_s.as_str());
    append_str(&mut m, "]\n");
    append_str(&mut m, "]\n\n");
    append_str(&mut m, "#align(center)[#text(size: 10pt, fill: luma(120))[生成时间：");
    append_str(&mut m, generated_date);
    append_str(&mut m, "]]\n\n");
    append_str(&mut m, "#v(8pt)\n\n");
    let ghost head = m@;
    assert(head =~= sheet_header(subj_s@, font_s@, generated_date@));
    let n = questions.len();
    let mut i: usize = 0;
    while i < n
        invariant
            i <= n,
            n == questions@.len(),
            reg == views(registered@),
            m@ == head + question_blocks(questions@, i as int, reg),
        decreases n - i,
    {
        let ghost before = m@;
        append_question_block(&mut m, &questions[i], i, registered);
        assert(m@ =~= before + question_block(questions@[i as int], i as nat, reg));
        i = i + 1;
    }
    if n == 0 {
        return string_from_chars(m.as_slice());
    }
    let ghost body = m@;
    append_str(&mut m, "#pagebreak()\n\n");
    append_str(&mut m, "#align(center)[\n");
    append_str(&mut m, "  #text(size: 18pt, weight: \"bold\")[参考答案与知识点 - ");
    append_str(&mut m, subj_s.as_str());
    append_str(&mut m, "]\n");
    append_str(&mut m, "]\n\n");
    append_str(&mut m, "#align(center)[#text(size: 10pt, fill: luma(120))[生成时间：");
    append_str(&mut m, generated_date);
    append_str(&mut m, "]]\n\n");
    append_str(&mut m, "#v(8pt)\n\n");
    assert(m@ =~= body + answers_header(subj_s@, generated_date@));
    let ghost with_header = m@;
    let mut k: usize = 0;
    while k < n
        invariant
            k <= n,
            n == questions@.len(),
            m@ == with_header + answer_blocks(questions@, k as int),
        decreases n - k,
    {
        let q = &questions[k];
        let ghost before = m@;
        append_str(&mut m, "#text(size: 14pt, weight: \"bold\")[第 ");
        append_decimal(&mut m, k + 1);
        append_str(&mut m, " 题]\n");
        append_str(&mut m, "#v(4pt)\n\n");
        let ac = sanitize_text(q.answer.as_str());
        let av = chars_of(ac.as_str());
        let mut ae: Vec<char> = Vec::new();
        append_escaped(&mut ae, av.as_slice());
        let answer = string_from_chars(ae.as_slice());
        append_labeled_multiline(&mut m, "答案", answer.as_str());
        let mut kj: Vec<char> = Vec::new();
        append_joined(&mut kj, &q.knowledge_points, "、");
        let kjs = string_from_chars(kj.as_slice());
        let kc = sanitize_text(kjs.as_str());
        let kv = chars_of(kc.as_str());
        append_str(&mut m, "知识点: ");
        append_escaped(&mut m, kv.as_slice());
        append_str(&mut m, "\n");
        append_str(&mut m, "\n#v(10pt)\n\n");
        assert(m@ =~= before + answer_block(*q, k as nat));
        k = k + 1;
    }
    string_from_chars(m.as_slice())
}

proof fn lemma_answer_blocks_hold(qs: Seq<PracticeQuestion>, n: int, i: int) -> (split: (
    Seq<char>,
    Seq<char>,
))
    requires
        0 <= i < n <= qs.len(),
    ensures
        answer_blocks(qs, n) == split.0 + answer_block(qs[i], i as nat) + split.1,
    decreases n,
{
    if i == n - 1 {
        assert(answer_blocks(qs, n) =~= answer_blocks(qs, n - 1) + answer_block(qs[i], i as nat)
            + Seq::<char>::empty());
        (answer_blocks(qs, n - 1), Seq::<char>::empty())
    } else {
        let (pre, post) = lemma_answer_blocks_hold(qs, n - 1, i);
        let tail = answer_block(qs[n - 1], (n - 1) as nat);
        assert(answer_blocks(qs, n) =~= pre + answer_block(qs[i], i as nat) + (post + tail));
        (pre, post + tail)
    }
}

/// The answer part of a sheet gives, for every question `i`, the heading of
/// question `i + 1` followed by `答案: ` and that question's own answer
/// (sanitised, escaped, its lines kept), and then its knowledge points: the
/// sheet splits around exactly that text.
pub proof fn sheet_answers_follow_their_questions(
    qs: Seq<PracticeQuestion>,
    subject: Seq<char>,
    font_family: Seq<char>,
    registered: Seq<Seq<char>>,
    date: Seq<char>,
    i: int,
) -> (split: (Seq<char>, Seq<char>))
    requires
        0 <= i < qs.len(),
    ensures
        typst_sheet(qs, subject, font_family, registered, date) == split.0 + numbered_heading(
            (i + 1) as nat,
        ) + "答案"@ + ": "@ + multiline(escaped(sanitized(qs[i].answer@))) + "知识点: "@ + escaped(
            sanitized(join(views(qs[i].knowledge_points@), "、"@)),
        ) + split.1,
{
    let subj = escaped(sanitized(subject));
    let head = sheet_header(subj, escaped(font_family), date) + question_blocks(
        qs,
        qs.len() as int,
        registered,
    ) + answers_header(subj, date);
    let (pre, post) = lemma_answer_blocks_hold(qs, qs.len() as int, i);
    let q = qs[i];
    let x = numbered_heading((i + 1) as nat) + "答案"@ + ": "@ + multiline(escaped(sanitized(q.answer@)))
        + "知识点: "@ + escaped(sanitized(join(views(q.knowledge_points@), "、"@)));
    let tail = "\n"@ + "\n#v(10pt)\n\n"@;
    lemma_answer_block_text(q, i as nat);
    let sheet = typst_sheet(qs, subject, font_family, registered, date);
    assert(sheet == head + answer_blocks(qs, qs.len() as int));
    lemma_regroup(head, pre, x, tail, post);
    (head + pre, tail + post)
}

proof fn lemma_answer_block_text(q: PracticeQuestion, i: nat)
    ensures
        answer_block(q, i) == numbered_heading(i + 1) + "答案"@ + ": "@ + multiline(
            escaped(sanitized(q.answer@)),
        ) + "知识点: "@ + escaped(sanitized(join(views(q.knowledge_points@), "、"@))) + ("\n"@
            + "\n#v(10pt)\n\n"@),
{
    assert(answer_block(q, i) =~= numbered_heading(i + 1) + "答案"@ + ": "@ + multiline(
        escaped(sanitized(q.answer@)),
    ) + "知识点: "@ + escaped(sanitized(join(views(q.knowledge_points@), "、"@))) + ("\n"@
        + "\n#v(10pt)\n\n"@));
}

proof fn lemma_regroup(a: Seq<char>, b: Seq<char>, x: Seq<char>, t: Seq<char>, c: Seq<char>)
    ensures
        a + (b + (x + t) + c) == (a + b) + x + (t + c),
{
    assert(a + (b + (x + t) + c) =~= (a + b) + x + (t + c));
}

} // verus!
