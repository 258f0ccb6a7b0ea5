//! Character-level string utilities shared by the parsers and renderers.
//!
//! Everything here works on sequences of Unicode scalar values, so every
//! cut lands on a character boundary.
use vstd::prelude::*;

verus! {

/// The characters of `s`, in order.
pub fn chars_of(s: &str) -> (v: Vec<char>)
    ensures
        v@ == s@,
{
    broadcast use vstd::string::group_string_axioms;
    let mut v: Vec<char> = Vec::new();
    for c in it: s.chars()
        invariant
            v@ == it.seq().take(it.index() as int),
            it.seq() == s@,
    {
        v.push(c);
    }
    v
}

/// A `String` holding exactly the characters of `v` (`String: FromIterator<&char>`).
#[verifier::external_body]
pub(crate) fn string_from_chars(v: &[char]) -> (s: String)
    ensures
        s@ == v@,
{
    v.iter().collect()
}

/// `s` itself when it has at most `max` characters, otherwise its first `max`
/// characters followed by "…".
pub open spec fn ellipsized(s: Seq<char>, max: nat) -> Seq<char> {
    if s.len() <= max {
        s
    } else {
        s.take(max as int).push('…')
    }
}

/// `s` cut to at most `max` characters, marked with a trailing "…" when
/// something was cut.
pub fn ellipsize(s: &str, max: usize) -> (r: String)
    ensures
        r@ == ellipsized(s@, max as nat),
{
    let v = chars_of(s);
    if v.len() <= max {
        string_from_chars(v.as_slice())
    } else {
        let mut out = copy_range(v.as_slice(), 0, max);
        out.push('…');
        string_from_chars(out.as_slice())
    }
}

/// Appends the characters of `s` to `out`.
pub fn append_str(out: &mut Vec<char>, s: &str)
    ensures
        final(out)@ == old(out)@ + s@,
{
    let v = chars_of(s);
    out.extend_from_slice(v.as_slice());
}

/// Whether `s` begins with `c`.
pub open spec fn starts_with_char(s: Seq<char>, c: char) -> bool {
    s.len() > 0 && s[0] == c
}

/// Whether `v` begins with `c`.
pub fn begins_with(v: &[char], c: char) -> (b: bool)
    ensures
        b == starts_with_char(v@, c),
{
    v.len() > 0 && v[0] == c
}

/// The length of `s` in UTF-8 bytes, as `str::len` reports it.
pub open spec fn byte_len(s: Seq<char>) -> usize {
    vstd::utf8::encode_utf8(s).len() as usize
}

/// `c` with ASCII upper case lowered.
pub open spec fn lower_ascii(c: char) -> char {
    if 'A' <= c && c <= 'Z' {
        ((c as u32) + 32) as char
    } else {
        c
    }
}

/// `s` with ASCII upper case lowered (`str::to_ascii_lowercase`).
pub open spec fn ascii_lowercase(s: Seq<char>) -> Seq<char> {
    s.map_values(|c: char| lower_ascii(c))
}

fn lower_ascii_char(c: char) -> (r: char)
    ensures
        r == lower_ascii(c),
{
    if 'A' <= c && c <= 'Z' {
        let u = (c as u32) + 32;
        let b = u as u8;
        b as char
    } else {
        c
    }
}

/// `s` with ASCII upper case lowered.
pub fn to_ascii_lowercase(s: &str) -> (r: String)
    ensures
        r@ == ascii_lowercase(s@),
{
    let v = chars_of(s);
    let n = v.len();
    let mut out: Vec<char> = Vec::new();
    let mut i: usize = 0;
    while i < n
        invariant
            i <= n,
            n == v@.len(),
            out@ == v@.take(i as int).map_values(|c: char| lower_ascii(c)),
        decreases n - i,
    {
        out.push(lower_ascii_char(v[i]));
        assert(v@.take(i + 1).map_values(|c: char| lower_ascii(c)) =~= v@.take(i as int).map_values(
            |c: char| lower_ascii(c),
        ).push(lower_ascii(v@[i as int])));
        i = i + 1;
    }
    assert(v@.take(n as int) =~= v@);
    string_from_chars(out.as_slice())
}

/// `s` without trailing `c` characters (`str::trim_end_matches` with a `char`).
pub open spec fn trim_end_char(s: Seq<char>, c: char) -> Seq<char>
    decreases s.len(),
{
    if s.len() > 0 && s.last() == c {
        trim_end_char(s.drop_last(), c)
    } else {
        s
    }
}

/// `s` without trailing `c` characters.
pub fn trim_end_matches_char(s: &str, c: char) -> (r: String)
    ensures
        r@ == trim_end_char(s@, c),
{
    let v = chars_of(s);
    let mut j: usize = v.len();
    assert(v@.subrange(0, j as int) =~= v@);
    while j > 0 && v[j - 1] == c
        invariant
            j <= v@.len(),
            trim_end_char(v@, c) == trim_end_char(v@.subrange(0, j as int), c),
        decreases j,
    {
        assert(v@.subrange(0, j as int).drop_last() =~= v@.subrange(0, j - 1));
        j = j - 1;
    }
    let t = copy_range(v.as_slice(), 0, j);
    string_from_chars(t.as_slice())
}

/// Whether `s` starts with `p`.
pub open spec fn has_prefix(s: Seq<char>, p: Seq<char>) -> bool {
    p.len() <= s.len() && s.take(p.len() as int) == p
}

/// Whether `s` starts with `p` (`str::starts_with`).
pub fn starts_with_str(s: &str, p: &str) -> (b: bool)
    ensures
        b == has_prefix(s@, p@),
{
    let v = chars_of(s);
    let pv = chars_of(p);
    let r = matches_at(v.as_slice(), pv.as_slice(), 0);
    assert(pv@.len() <= v@.len() ==> v@.take(pv@.len() as int) =~= v@.subrange(0, pv@.len() as int));
    r
}

/// A copy of an optional string.
pub fn copy_opt_string(o: &Option<String>) -> (r: Option<String>)
    ensures
        r == *o,
{
    match o {
        Some(s) => Some(s.clone()),
        None => None,
    }
}

// ── numbers and joins ────────────────────────────────────────────────

/// The decimal digit for `d < 10`.
pub open spec fn digit_char(d: nat) -> char {
    if d == 0 {
        '0'
    } else if d == 1 {
        '1'
    } else if d == 2 {
        '2'
    } else if d == 3 {
        '3'
    } else if d == 4 {
        '4'
    } else if d == 5 {
        '5'
    } else if d == 6 {
        '6'
    } else if d == 7 {
        '7'
    } else if d == 8 {
        '8'
    } else {
        '9'
    }
}

/// The decimal representation of `n`, as `Display` writes it for integers.
pub open spec fn decimal(n: nat) -> Seq<char>
    decreases n,
{
    if n < 10 {
        seq![digit_char(n)]
    } else {
        decimal(n / 10).push(digit_char(n % 10))
    }
}

fn digit(d: usize) -> (c: char)
    requires
        d < 10,
    ensures
        c == digit_char(d as nat),
{
    if d == 0 {
        '0'
    } else if d == 1 {
        '1'
    } else if d == 2 {
        '2'
    } else if d == 3 {
        '3'
    } else if d == 4 {
        '4'
    } else if d == 5 {
        '5'
    } else if d == 6 {
        '6'
    } else if d == 7 {
        '7'
    } else if d == 8 {
        '8'
    } else {
        '9'
    }
}

/// Appends the decimal representation of `n` to `out`.
pub fn append_decimal(out: &mut Vec<char>, n: usize)
    ensures
        final(out)@ == old(out)@ + decimal(n as nat),
    decreases n,
{
    if n >= 10 {
        append_decimal(out, n / 10);
    }
    out.push(digit(n % 10));
    assert(final(out)@ =~= old(out)@ + decimal(n as nat));
}

/// `parts` joined with `sep` between neighbours (`[T]::join`).
pub open spec fn join(parts: Seq<Seq<char>>, sep: Seq<char>) -> Seq<char>
    decreases parts.len(),
{
    if parts.len() == 0 {
        Seq::empty()
    } else if parts.len() == 1 {
        parts[0]
    } else {
        join(parts.drop_last(), sep) + sep + parts.last()
    }
}

/// The character views of `v`.
pub open spec fn views(v: Seq<String>) -> Seq<Seq<char>> {
    v.map_values(|s: String| s@)
}

/// Appends `parts` joined with `sep` to `out`.
pub fn append_joined(out: &mut Vec<char>, parts: &Vec<String>, sep: &str)
    ensures
        final(out)@ == old(out)@ + join(views(parts@), sep@),
{
    let ghost start = out@;
    let n = parts.len();
    let mut k: usize = 0;
    while k < n
        invariant
            k <= n,
            n == parts@.len(),
            out@ == start + join(views(parts@).take(k as int), sep@),
        decreases n - k,
    {
        let ghost pre = out@;
        if k > 0 {
            append_str(out, sep);
        }
        append_str(out, parts[k].as_str());
        proof {
            let t = views(parts@).take(k + 1);
            assert(t.drop_last() =~= views(parts@).take(k as int));
            assert(t.last() == parts@[k as int]@);
            if k == 0 {
                assert(t.len() == 1);
                assert(join(views(parts@).take(0), sep@) =~= Seq::<char>::empty());
            }
        }
        k = k + 1;
    }
    assert(views(parts@).take(n as int) =~= views(parts@));
}

/// The character views of `v`.
pub open spec fn str_views(v: Seq<&str>) -> Seq<Seq<char>> {
    v.map_values(|s: &str| s@)
}

/// Appends `parts` joined with `sep` to `out`.
pub fn append_joined_strs(out: &mut Vec<char>, parts: &Vec<&str>, sep: &str)
    ensures
        final(out)@ == old(out)@ + join(str_views(parts@), sep@),
{
    let ghost start = out@;
    let n = parts.len();
    let mut k: usize = 0;
    while k < n
        invariant
            k <= n,
            n == parts@.len(),
            out@ == start + join(str_views(parts@).take(k as int), sep@),
        decreases n - k,
    {
        if k > 0 {
            append_str(out, sep);
        }
        append_str(out, parts[k]);
        proof {
            let t = str_views(parts@).take(k + 1);
            assert(t.drop_last() =~= str_views(parts@).take(k as int));
            assert(t.last() == parts@[k as int]@);
            if k == 0 {
                assert(t.len() == 1);
                assert(join(str_views(parts@).take(0), sep@) =~= Seq::<char>::empty());
            }
        }
        k = k + 1;
    }
    assert(str_views(parts@).take(n as int) =~= str_views(parts@));
}

// ── whitespace and trimming ─────────────────────────────────────────

/// The Unicode `White_Space` property, as `char::is_whitespace` tests it.
pub open spec fn is_ws(c: char) -> bool {
    let u = c as u32;
    (0x9 <= u && u <= 0xD) || u == 0x20 || u == 0x85 || u == 0xA0 || u == 0x1680
        || (0x2000 <= u && u <= 0x200A) || u == 0x2028 || u == 0x2029 || u == 0x202F
        || u == 0x205F || u == 0x3000
}

/// Whether `c` is Unicode white space.
pub fn is_whitespace(c: char) -> (b: bool)
    ensures
        b == is_ws(c),
{
    let u = c as u32;
    (0x9 <= u && u <= 0xD) || u == 0x20 || u == 0x85 || u == 0xA0 || u == 0x1680
        || (0x2000 <= u && u <= 0x200A) || u == 0x2028 || u == 0x2029 || u == 0x202F
        || u == 0x205F || u == 0x3000
}

/// `s` without its leading white space.
pub open spec fn trim_start(s: Seq<char>) -> Seq<char>
    decreases s.len(),
{
    if s.len() > 0 && is_ws(s[0]) {
        trim_start(s.drop_first())
    } else {
        s
    }
}

/// `s` without its trailing white space.
pub open spec fn trim_end(s: Seq<char>) -> Seq<char>
    decreases s.len(),
{
    if s.len() > 0 && is_ws(s.last()) {
        trim_end(s.drop_last())
    } else {
        s
    }
}

/// `s` without leading and trailing white space (`str::trim`).
pub open spec fn trim(s: Seq<char>) -> Seq<char> {
    trim_end(trim_start(s))
}

/// The bounds of the trimmed part of `v`.
pub fn trim_bounds(v: &[char]) -> (r: (usize, usize))
    ensures
        r.0 <= r.1 <= v@.len(),
        v@.subrange(r.0 as int, r.1 as int) == trim(v@),
        v@.subrange(r.0 as int, v@.len() as int) == trim_start(v@),
{
    let n = v.len();
    let mut i: usize = 0;
    assert(v@.skip(0) =~= v@);
    while i < n && is_whitespace(v[i])
        invariant
            i <= n,
            n == v@.len(),
            trim_start(v@) == trim_start(v@.skip(i as int)),
        decreases n - i,
    {
        assert(v@.skip(i as int).drop_first() =~= v@.skip(i + 1));
        i = i + 1;
    }
    assert(trim_start(v@.skip(i as int)) == v@.skip(i as int));
    let ghost t = v@.skip(i as int);
    let mut j: usize = n;
    assert(v@.subrange(i as int, n as int) =~= t);
    while j > i && is_whitespace(v[j - 1])
        invariant
            i <= j <= n,
            n == v@.len(),
            t == v@.skip(i as int),
            trim_end(t) == trim_end(v@.subrange(i as int, j as int)),
        decreases j,
    {
        assert(v@.subrange(i as int, j as int).drop_last() =~= v@.subrange(i as int, j - 1));
        j = j - 1;
    }
    assert(v@.subrange(i as int, n as int) =~= v@.skip(i as int));
    (i, j)
}

/// `v` without its trailing white space (`str::trim_end`).
pub fn trim_end_chars(v: &[char]) -> (r: Vec<char>)
    ensures
        r@ == trim_end(v@),
{
    let n = v.len();
    let mut j: usize = n;
    assert(v@.subrange(0, n as int) =~= v@);
    while j > 0 && is_whitespace(v[j - 1])
        invariant
            j <= n,
            n == v@.len(),
            trim_end(v@) == trim_end(v@.subrange(0, j as int)),
        decreases j,
    {
        assert(v@.subrange(0, j as int).drop_last() =~= v@.subrange(0, j - 1));
        j = j - 1;
    }
    copy_range(v, 0, j)
}

/// A fresh vector holding `v[a..b]`.
pub fn copy_range(v: &[char], a: usize, b: usize) -> (r: Vec<char>)
    requires
        a <= b <= v@.len(),
    ensures
        r@ == v@.subrange(a as int, b as int),
{
    let mut r: Vec<char> = Vec::new();
    let mut k = a;
    while k < b
        invariant
            a <= k <= b,
            b <= v@.len(),
            r@ == v@.subrange(a as int, k as int),
        decreases b - k,
    {
        r.push(v[k]);
        assert(r@ =~= v@.subrange(a as int, k + 1));
        k = k + 1;
    }
    r
}

/// `v` trimmed of white space at both ends.
pub fn trim_chars(v: &[char]) -> (r: Vec<char>)
    ensures
        r@ == trim(v@),
{
    let (a, b) = trim_bounds(v);
    copy_range(v, a, b)
}

/// `s` trimmed of white space at both ends (`str::trim`).
pub fn trim_str(s: &str) -> (r: String)
    ensures
        r@ == trim(s@),
{
    let v = chars_of(s);
    let t = trim_chars(v.as_slice());
    string_from_chars(t.as_slice())
}

// ── matching ─────────────────────────────────────────────────────────

/// `p` occurs in `s` starting at index `i`.
pub open spec fn occurs_at(s: Seq<char>, p: Seq<char>, i: int) -> bool {
    0 <= i && i + p.len() <= s.len() && s.subrange(i, i + p.len()) == p
}

/// `s` contains `p` somewhere.
pub open spec fn contains_seq(s: Seq<char>, p: Seq<char>) -> bool {
    exists|i: int| occurs_at(s, p, i)
}

/// The first start index `>= k` of `p` in `s` (`str::find` from `k`).
pub open spec fn find_from(s: Seq<char>, p: Seq<char>, k: int) -> Option<int>
    decreases s.len() - k,
{
    if k < 0 || k + p.len() > s.len() {
        None
    } else if occurs_at(s, p, k) {
        Some(k)
    } else if p.len() == 0 {
        None
    } else {
        find_from(s, p, k + 1)
    }
}

/// The first start index of `p` in `s` (`str::find`).
pub open spec fn find(s: Seq<char>, p: Seq<char>) -> Option<int> {
    find_from(s, p, 0)
}

/// The last start index `<= e` of `p` in `s`.
pub open spec fn rfind_upto(s: Seq<char>, p: Seq<char>, e: int) -> Option<int>
    decreases e + 1,
{
    if e < 0 {
        None
    } else if occurs_at(s, p, e) {
        Some(e)
    } else {
        rfind_upto(s, p, e - 1)
    }
}

/// The last start index of `p` in `s` (`str::rfind`).
pub open spec fn rfind(s: Seq<char>, p: Seq<char>) -> Option<int> {
    rfind_upto(s, p, s.len() - p.len())
}

/// Whether `p` occurs in `v` at index `i`.
pub fn matches_at(v: &[char], p: &[char], i: usize) -> (b: bool)
    ensures
        b == occurs_at(v@, p@, i as int),
{
    if i > v.len() || p.len() > v.len() - i {
        return false;
    }
    let n = v.len();
    let mut k: usize = 0;
    while k < p.len()
        invariant
            k <= p@.len(),
            n == v@.len(),
            i + p@.len() <= n,
            forall|m: int| 0 <= m < k ==> v@[i + m] == p@[m],
        decreases p.len() - k,
    {
        if v[i + k] != p[k] {
            assert(v@.subrange(i as int, i + p@.len())[k as int] != p@[k as int]);
            return false;
        }
        k = k + 1;
    }
    assert(v@.subrange(i as int, i + p@.len()) =~= p@);
    true
}

/// The first start index `>= from` of `p` in `v`.
pub fn find_chars_from(v: &[char], p: &[char], from: usize) -> (r: Option<usize>)
    ensures
        r matches Some(i) ==> find_from(v@, p@, from as int) == Some(i as int),
        r matches Some(i) ==> from <= i && occurs_at(v@, p@, i as int),
        r is None ==> find_from(v@, p@, from as int) is None,
{
    let mut k = from;
    while k <= v.len()
        invariant
            from <= k,
            find_from(v@, p@, from as int) == find_from(v@, p@, k as int),
        decreases v.len() + 1 - k,
    {
        if p.len() > v.len() - k {
            return None;
        }
        if matches_at(v, p, k) {
            return Some(k);
        }
        if p.len() == 0 {
            return None;
        }
        k = k + 1;
    }
    None
}

/// The first start index of `p` in `v` (`str::find`).
pub fn find_chars(v: &[char], p: &[char]) -> (r: Option<usize>)
    ensures
        r matches Some(i) ==> find(v@, p@) == Some(i as int),
        r matches Some(i) ==> occurs_at(v@, p@, i as int),
        r is None ==> find(v@, p@) is None,
{
    find_chars_from(v, p, 0)
}

/// The first index of `c` in `v` at or after `from`.
pub fn find_char_from(v: &[char], c: char, from: usize) -> (r: Option<usize>)
    ensures
        r matches Some(i) ==> find_from(v@, seq![c], from as int) == Some(i as int),
        r matches Some(i) ==> from <= i < v@.len() && v@[i as int] == c,
        r is None ==> find_from(v@, seq![c], from as int) is None,
{
    let p: Vec<char> = vec![c];
    assert(p@ =~= seq![c]);
    let r = find_chars_from(v, p.as_slice(), from);
    if let Some(i) = r {
        assert(v@.subrange(i as int, i + 1)[0] == c);
    }
    r
}

/// The first index of `c` in `v` (`str::find` with a `char`).
pub fn find_char(v: &[char], c: char) -> (r: Option<usize>)
    ensures
        r matches Some(i) ==> find(v@, seq![c]) == Some(i as int),
        r matches Some(i) ==> i < v@.len() && v@[i as int] == c,
        r is None ==> find(v@, seq![c]) is None,
{
    find_char_from(v, c, 0)
}

/// The last index of `c` in `v` (`str::rfind` with a `char`).
pub fn rfind_char(v: &[char], c: char) -> (r: Option<usize>)
    ensures
        r matches Some(i) ==> rfind(v@, seq![c]) == Some(i as int),
        r matches Some(i) ==> i < v@.len() && v@[i as int] == c,
        r is None ==> rfind(v@, seq![c]) is None,
{
    let p: Vec<char> = vec![c];
    assert(p@ =~= seq![c]);
    let r = rfind_chars(v, p.as_slice());
    if let Some(i) = r {
        assert(v@.subrange(i as int, i + 1)[0] == c);
    }
    r
}

/// Whether `needle` occurs in `hay` (`str::contains`).
pub fn contains_text(hay: &[char], needle: &str) -> (b: bool)
    ensures
        b == (find(hay@, needle@) is Some),
{
    let p = chars_of(needle);
    find_chars(hay, p.as_slice()).is_some()
}

/// Whether `needle` occurs in `hay` (`str::contains`).
pub fn str_contains(hay: &str, needle: &str) -> (b: bool)
    ensures
        b == (find(hay@, needle@) is Some),
{
    let h = chars_of(hay);
    contains_text(h.as_slice(), needle)
}

/// Whether `a` and `b` hold the same characters.
pub fn same_chars(a: &[char], b: &[char]) -> (r: bool)
    ensures
        r == (a@ == b@),
{
    if a.len() != b.len() {
        return false;
    }
    let n = a.len();
    let mut i: usize = 0;
    while i < n
        invariant
            i <= n,
            n == a@.len(),
            n == b@.len(),
            forall|k: int| 0 <= k < i ==> a@[k] == b@[k],
        decreases n - i,
    {
        if a[i] != b[i] {
            return false;
        }
        i = i + 1;
    }
    assert(a@ =~= b@);
    true
}

/// Whether `a` and `b` are the same text.
pub fn same_text(a: &str, b: &str) -> (r: bool)
    ensures
        r == (a@ == b@),
{
    let x = chars_of(a);
    let y = chars_of(b);
    same_chars(x.as_slice(), y.as_slice())
}

/// Whether one of `v` is the text `s`.
pub fn contains_string(v: &Vec<String>, s: &str) -> (b: bool)
    ensures
        b == views(v@).contains(s@),
{
    let n = v.len();
    let mut i: usize = 0;
    while i < n
        invariant
            i <= n,
            n == v@.len(),
            forall|k: int| 0 <= k < i ==> v@[k]@ != s@,
        decreases n - i,
    {
        if same_text(v[i].as_str(), s) {
            assert(views(v@)[i as int] == s@);
            return true;
        }
        i = i + 1;
    }
    assert forall|k: int| 0 <= k < views(v@).len() implies views(v@)[k] != s@ by {
        assert(views(v@)[k] == v@[k]@);
    }
    false
}

/// The last start index of `p` in `v` (`str::rfind`).
pub fn rfind_chars(v: &[char], p: &[char]) -> (r: Option<usize>)
    ensures
        r matches Some(i) ==> rfind(v@, p@) == Some(i as int),
        r matches Some(i) ==> occurs_at(v@, p@, i as int),
        r is None ==> rfind(v@, p@) is None,
{
    if p.len() > v.len() {
        return None;
    }
    let mut e: usize = v.len() - p.len();
    loop
        invariant
            e + p@.len() <= v@.len(),
            rfind(v@, p@) == rfind_upto(v@, p@, e as int),
        decreases e,
    {
        if matches_at(v, p, e) {
            return Some(e);
        }
        if e == 0 {
            assert(rfind_upto(v@, p@, -1) is None);
            return None;
        }
        e = e - 1;
    }
}

// ── replacing and splitting ──────────────────────────────────────────

/// `s` with every occurrence of the non-empty `p` replaced by `r`, scanning
/// left to right without overlaps (`str::replace`).
pub open spec fn replace_all(s: Seq<char>, p: Seq<char>, r: Seq<char>) -> Seq<char>
    decreases s.len(),
{
    if s.len() == 0 || p.len() == 0 {
        s
    } else if p.len() <= s.len() && s.take(p.len() as int) == p {
        r + replace_all(s.skip(p.len() as int), p, r)
    } else {
        seq![s[0]] + replace_all(s.skip(1), p, r)
    }
}

/// `v` with every occurrence of `p` replaced by `r`.
pub fn replace_chars(v: &[char], p: &str, r: &str) -> (out: Vec<char>)
    requires
        p@.len() > 0,
    ensures
        out@ == replace_all(v@, p@, r@),
{
    let pv = chars_of(p);
    let rv = chars_of(r);
    let n = v.len();
    let m = pv.len();
    let mut out: Vec<char> = Vec::new();
    let mut i: usize = 0;
    assert(v@.skip(0) =~= v@);
    while i < n
        invariant
            i <= n,
            n == v@.len(),
            m == pv@.len(),
            m > 0,
            pv@ == p@,
            rv@ == r@,
            out@ + replace_all(v@.skip(i as int), p@, r@) == replace_all(v@, p@, r@),
        decreases n - i,
    {
        let ghost rest = v@.skip(i as int);
        if m <= n - i && matches_at(v, pv.as_slice(), i) {
            assert(rest.take(m as int) =~= v@.subrange(i as int, i + m));
            assert(rest.skip(m as int) =~= v@.skip(i + m));
            out.extend_from_slice(rv.as_slice());
            assert(out@ + replace_all(v@.skip(i + m), p@, r@) =~= replace_all(v@, p@, r@));
            i = i + m;
        } else {
            assert(m <= rest.len() ==> rest.take(m as int) =~= v@.subrange(i as int, i + m));
            assert(rest.skip(1) =~= v@.skip(i + 1));
            out.push(v[i]);
            assert(out@ + replace_all(v@.skip(i + 1), p@, r@) =~= replace_all(v@, p@, r@));
            i = i + 1;
        }
    }
    assert(replace_all(v@.skip(n as int), p@, r@) =~= Seq::<char>::empty());
    assert(out@ =~= replace_all(v@, p@, r@));
    out
}

/// `s` with CRLF and lone CR turned into LF.
pub open spec fn unix_newlines(s: Seq<char>) -> Seq<char> {
    replace_all(replace_all(s, "\r\n"@, "\n"@), "\r"@, "\n"@)
}

/// `v` with CRLF and lone CR turned into LF.
pub fn to_unix_newlines(v: &[char]) -> (out: Vec<char>)
    ensures
        out@ == unix_newlines(v@),
{
    proof {
        reveal_strlit("\r\n");
        reveal_strlit("\r");
    }
    let a = replace_chars(v, "\r\n", "\n");
    replace_chars(a.as_slice(), "\r", "\n")
}

/// Where splitting on a separator stands: the finished pieces and the piece
/// being read.
pub struct SplitState {
    pub done: Seq<Seq<char>>,
    pub cur: Seq<char>,
}

/// The split state after the first `n` characters of `s`.
pub open spec fn split_scan(s: Seq<char>, c: char, n: int) -> SplitState
    decreases n,
{
    if n <= 0 {
        SplitState { done: Seq::empty(), cur: Seq::empty() }
    } else {
        let st = split_scan(s, c, n - 1);
        if s[n - 1] == c {
            SplitState { done: st.done.push(st.cur), cur: Seq::empty() }
        } else {
            SplitState { done: st.done, cur: st.cur.push(s[n - 1]) }
        }
    }
}

/// The pieces of `s` between occurrences of `c` (`str::split` with a `char`);
/// there is always at least one.
pub open spec fn split_on(s: Seq<char>, c: char) -> Seq<Seq<char>> {
    let st = split_scan(s, c, s.len() as int);
    st.done.push(st.cur)
}

/// Splits `v` at every `c`.
pub fn split_chars(v: &[char], c: char) -> (r: Vec<Vec<char>>)
    ensures
        r@.len() > 0,
        r@.len() == split_on(v@, c).len(),
        forall|k: int| 0 <= k < r@.len() ==> #[trigger] r@[k]@ == split_on(v@, c)[k],
{
    let n = v.len();
    let mut done: Vec<Vec<char>> = Vec::new();
    let mut cur: Vec<char> = Vec::new();
    let mut i: usize = 0;
    while i < n
        invariant
            i <= n,
            n == v@.len(),
            done@.len() == split_scan(v@, c, i as int).done.len(),
            forall|k: int| 0 <= k < done@.len() ==> #[trigger] done@[k]@ == split_scan(v@, c, i as int).done[k],
            cur@ == split_scan(v@, c, i as int).cur,
        decreases n - i,
    {
        if v[i] == c {
            let piece = cur;
            done.push(piece);
            cur = Vec::new();
        } else {
            cur.push(v[i]);
        }
        i = i + 1;
    }
    done.push(cur);
    done
}

/// `s` without one trailing `\r`.
pub open spec fn strip_cr(s: Seq<char>) -> Seq<char> {
    if s.len() > 0 && s.last() == '\r' {
        s.drop_last()
    } else {
        s
    }
}

/// The lines of `s` (`str::lines`): the pieces between `\n`, without a final
/// empty piece, each without a trailing `\r`.
pub open spec fn lines_of(s: Seq<char>) -> Seq<Seq<char>> {
    let pieces = split_on(s, '\n');
    let kept = if pieces.last().len() == 0 {
        pieces.drop_last()
    } else {
        pieces
    };
    kept.map_values(|l: Seq<char>| strip_cr(l))
}

/// The lines of `v`, as `str::lines` gives them.
pub fn lines_chars(v: &[char]) -> (r: Vec<String>)
    ensures
        views(r@) == lines_of(v@),
{
    let pieces = split_chars(v, '\n');
    let ghost sp = split_on(v@, '\n');
    let total = pieces.len();
    let n = if pieces[total - 1].len() == 0 {
        total - 1
    } else {
        total
    };
    let ghost kept = if sp.last().len() == 0 {
        sp.drop_last()
    } else {
        sp
    };
    assert(kept.len() == n);
    let mut out: Vec<String> = Vec::new();
    let mut k: usize = 0;
    while k < n
        invariant
            k <= n,
            n <= total,
            total == pieces@.len(),
            total == sp.len(),
            kept.len() == n,
            forall|j: int| 0 <= j < n ==> #[trigger] kept[j] == sp[j],
            forall|j: int| 0 <= j < total ==> #[trigger] pieces@[j]@ == sp[j],
            views(out@) == kept.take(k as int).map_values(|l: Seq<char>| strip_cr(l)),
        decreases n - k,
    {
        let p = &pieces[k];
        let len = p.len();
        let line = if len > 0 && p[len - 1] == '\r' {
            copy_range(p.as_slice(), 0, len - 1)
        } else {
            copy_range(p.as_slice(), 0, len)
        };
        assert(line@ =~= strip_cr(sp[k as int]));
        let ghost before = out@;
        out.push(string_from_chars(line.as_slice()));
        assert(views(out@) =~= views(before).push(strip_cr(kept[k as int])));
        assert(kept.take(k + 1).map_values(|l: Seq<char>| strip_cr(l)) =~= kept.take(k as int).map_values(
            |l: Seq<char>| strip_cr(l),
        ).push(strip_cr(kept[k as int])));
        k = k + 1;
    }
    assert(kept.take(n as int) =~= kept);
    out
}

/// Where splitting on white space stands: the finished words and the word
/// being read.
pub open spec fn words_scan(s: Seq<char>, n: int) -> SplitState
    decreases n,
{
    if n <= 0 {
        SplitState { done: Seq::empty(), cur: Seq::empty() }
    } else {
        let st = words_scan(s, n - 1);
        if is_ws(s[n - 1]) {
            if st.cur.len() > 0 {
                SplitState { done: st.done.push(st.cur), cur: Seq::empty() }
            } else {
                st
            }
        } else {
            SplitState { done: st.done, cur: st.cur.push(s[n - 1]) }
        }
    }
}

/// The words of `s`: its maximal runs without white space
/// (`str::split_whitespace`).
pub open spec fn words(s: Seq<char>) -> Seq<Seq<char>> {
    let st = words_scan(s, s.len() as int);
    if st.cur.len() > 0 {
        st.done.push(st.cur)
    } else {
        st.done
    }
}

/// The words of `v`.
pub fn split_words(v: &[char]) -> (r: Vec<String>)
    ensures
        views(r@) == words(v@),
{
    let n = v.len();
    let mut done: Vec<String> = Vec::new();
    let mut cur: Vec<char> = Vec::new();
    let mut i: usize = 0;
    while i < n
        invariant
            i <= n,
            n == v@.len(),
            views(done@) == words_scan(v@, i as int).done,
            cur@ == words_scan(v@, i as int).cur,
        decreases n - i,
    {
        if is_whitespace(v[i]) {
            if cur.len() > 0 {
                let ghost before = done@;
                done.push(string_from_chars(cur.as_slice()));
                assert(views(done@) =~= views(before).push(cur@));
                cur = Vec::new();
            }
        } else {
            cur.push(v[i]);
        }
        i = i + 1;
    }
    if cur.len() > 0 {
        let ghost before = done@;
        done.push(string_from_chars(cur.as_slice()));
        assert(views(done@) =~= views(before).push(cur@));
    }
    done
}

/// How many times `c` occurs in `s`.
pub open spec fn count_char(s: Seq<char>, c: char) -> nat
    decreases s.len(),
{
    if s.len() == 0 {
        0
    } else {
        count_char(s.drop_last(), c) + if s.last() == c {
            1nat
        } else {
            0nat
        }
    }
}

/// How many times `c` occurs in `v`.
pub fn count_of(v: &[char], c: char) -> (r: usize)
    ensures
        r == count_char(v@, c),
{
    let n = v.len();
    let mut k: usize = 0;
    let mut i: usize = 0;
    while i < n
        invariant
            i <= n,
            n == v@.len(),
            k <= i,
            k == count_char(v@.take(i as int), c),
        decreases n - i,
    {
        assert(v@.take(i + 1).drop_last() =~= v@.take(i as int));
        if v[i] == c {
            k = k + 1;
        }
        i = i + 1;
    }
    assert(v@.take(n as int) =~= v@);
    k
}

} // verus!
