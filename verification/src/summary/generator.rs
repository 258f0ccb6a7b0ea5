//! The text a period summary is asked for: the error records of the period,
//! one block each.
use vstd::prelude::*;
use crate::text::{append_decimal, append_joined, append_str, decimal, join, string_from_chars, views};

verus! {

/// What a summary reads of an error record.
#[derive(Debug, Clone)]
pub struct RecordDigest {
    pub classification: String,
    pub original_question: String,
    pub error_reason: String,
    pub suggestions: String,
}

/// The block of the record at `index` (counted from 0, shown from 1).
pub open spec fn record_block(index: nat, r: RecordDigest) -> Seq<char> {
    "=== 错题 "@ + decimal(index + 1) + " ===\n知识点: "@ + r.classification@ + "\n原题: "@
        + r.original_question@ + "\n错误原因: "@ + r.error_reason@ + "\n改进建议: "@
        + r.suggestions@
}

/// The blocks of the records, in order.
pub open spec fn record_blocks(rs: Seq<RecordDigest>) -> Seq<Seq<char>> {
    Seq::new(rs.len(), |i: int| record_block(i as nat, rs[i]))
}

fn record_block_text(index: usize, r: &RecordDigest) -> (s: String)
    requires
        index < usize::MAX,
    ensures
        s@ == record_block(index as nat, *r),
{
    let mut out: Vec<char> = Vec::new();
    append_str(&mut out, "=== 错题 ");
    append_decimal(&mut out, index + 1);
    append_str(&mut out, " ===\n知识点: ");
    append_str(&mut out, r.classification.as_str());
    append_str(&mut out, "\n原题: ");
    append_str(&mut out, r.original_question.as_str());
    append_str(&mut out, "\n错误原因: ");
    append_str(&mut out, r.error_reason.as_str());
    append_str(&mut out, "\n改进建议: ");
    append_str(&mut out, r.suggestions.as_str());
    string_from_chars(out.as_slice())
}

/// The records of the period as one text: their blocks separated by a blank
/// line.
pub fn summary_records_text(records: &Vec<RecordDigest>) -> (r: String)
    ensures
        r@ == join(record_blocks(records@), "\n\n"@),
{
    let n = records.len();
    let mut blocks: Vec<String> = Vec::new();
    let mut i: usize = 0;
    while i < n
        invariant
            n == records@.len(),
            i <= n,
            views(blocks@) =~= record_blocks(records@.take(i as int)),
        decreases n - i,
    {
        let b = record_block_text(i, &records[i]);
        let ghost before = blocks@;
        blocks.push(b);
        assert(views(blocks@) =~= views(before).push(b@));
        assert(record_blocks(records@.take(i + 1)) =~= record_blocks(records@.take(i as int)).push(
            record_block(i as nat, records@[i as int]),
        ));
        i = i + 1;
    }
    assert(records@.take(n as int) =~= records@);
    let mut out: Vec<char> = Vec::new();
    append_joined(&mut out, &blocks, "\n\n");
    string_from_chars(out.as_slice())
}

/// The error when the period has no records of the subject.
pub fn no_records_message(from: &str, to: &str, subject: &str) -> (m: String)
    ensures
        m@ == "在 "@ + from@ + " 到 "@ + to@ + " 期间，科目 "@ + subject@ + " 没有错题记录"@,
{
    let mut out: Vec<char> = Vec::new();
    append_str(&mut out, "在 ");
    append_str(&mut out, from);
    append_str(&mut out, " 到 ");
    append_str(&mut out, to);
    append_str(&mut out, " 期间，科目 ");
    append_str(&mut out, subject);
    append_str(&mut out, " 没有错题记录");
    string_from_chars(out.as_slice())
}

} // verus!
