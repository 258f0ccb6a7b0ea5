//! The decisions of practice set generation: batch sizes, which plan item and
//! reference questions each batch uses, how a plan item shapes the generated
//! questions, and when an image failure is tolerated.
use vstd::prelude::*;
use crate::analysis::parser::PracticeQuestion;
use crate::practice::planner::{
    ImageSpecModel, PracticeImageRole, PracticeImageSpec, PracticeQuestionPlanItem,
};
use crate::text::{
    append_decimal, append_joined, append_str, chars_of, decimal, ellipsize, ellipsized, find,
    join, str_contains, string_from_chars, trim, trim_chars, views,
};

verus! {

/// The number of questions asked for per batch; one at a time keeps long
/// question texts stable.
pub const DEFAULT_BATCH_SIZE: u32 = 1;

/// The size of the next batch: at most `DEFAULT_BATCH_SIZE`, at most what remains.
pub fn next_batch_size(remaining: u32) -> (r: u32)
    ensures
        r == if remaining < DEFAULT_BATCH_SIZE {
            remaining
        } else {
            DEFAULT_BATCH_SIZE
        },
{
    if remaining < DEFAULT_BATCH_SIZE {
        remaining
    } else {
        DEFAULT_BATCH_SIZE
    }
}

/// A batch of the next size is never empty while questions remain and never
/// goes past the requested count, so generation ends with exactly that many.
pub proof fn batches_reach_the_count(already: nat, count: nat)
    requires
        already < count,
    ensures
        ({
            let b = if count - already < DEFAULT_BATCH_SIZE {
                count - already
            } else {
                DEFAULT_BATCH_SIZE as int
            };
            &&& b >= 1
            &&& already + b <= count
        }),
{
}

/// `s` cut to `max_chars` characters, with "…" when something was cut.
pub fn truncate_chars(s: &str, max_chars: usize) -> (r: String)
    ensures
        r@ == ellipsized(s@, max_chars as nat),
{
    ellipsize(s, max_chars)
}

/// The user's extra requirements: trimmed, at most 500 characters, and
/// nothing when blank.
pub open spec fn normalized_requirements(r: Option<Seq<char>>) -> Option<Seq<char>> {
    match r {
        None => None,
        Some(s) => {
            let t = trim(s);
            if t.len() == 0 {
                None
            } else if t.len() <= 500 {
                Some(t)
            } else {
                Some(t.take(500))
            }
        },
    }
}

/// A summary's weak points are what practice is generated for: with none,
/// generation is refused.
pub fn require_weak_points(weak_points: &Vec<String>) -> (r: Result<(), String>)
    ensures
        r is Ok <==> weak_points@.len() > 0,
        r matches Err(m) ==> m@ == "总结中没有薄弱知识点，无法生成练习题"@,
{
    if weak_points.len() == 0 {
        Err(string_from_chars(chars_of("总结中没有薄弱知识点，无法生成练习题").as_slice()))
    } else {
        Ok(())
    }
}

/// Normalises the user's extra requirements for the prompt.
pub fn normalize_requirements(requirements: Option<&str>) -> (r: Option<String>)
    ensures
        r matches Some(x) ==> normalized_requirements(
            match requirements {
                Some(s) => Some(s@),
                None => None,
            },
        ) == Some(x@),
        r is None ==> normalized_requirements(
            match requirements {
                Some(s) => Some(s@),
                None => None,
            },
        ) is None,
{
    let s = match requirements {
        Some(s) => s,
        None => return None,
    };
    let v = chars_of(s);
    let t = trim_chars(v.as_slice());
    if t.len() == 0 {
        return None;
    }
    if t.len() <= 500 {
        Some(string_from_chars(t.as_slice()))
    } else {
        let mut out: Vec<char> = Vec::new();
        let mut i: usize = 0;
        while i < 500
            invariant
                i <= 500,
                500 < t@.len(),
                out@ == t@.take(i as int),
            decreases 500 - i,
        {
            out.push(t[i]);
            assert(out@ =~= t@.take(i + 1));
            i = i + 1;
        }
        Some(string_from_chars(out.as_slice()))
    }
}

/// Whether some point of `points` occurs in `item`.
pub open spec fn mentions_any(item: Seq<char>, points: Seq<Seq<char>>) -> bool {
    exists|k: int| 0 <= k < points.len() && find(item, #[trigger] points[k]) is Some
}

fn mentions_any_point(item: &str, points: &[String]) -> (b: bool)
    ensures
        b == mentions_any(item@, views(points@)),
{
    let n = points.len();
    let mut k: usize = 0;
    while k < n
        invariant
            k <= n,
            n == points@.len(),
            forall|j: int| 0 <= j < k ==> !(find(item@, #[trigger] views(points@)[j]) is Some),
        decreases n - k,
    {
        if str_contains(item, points[k].as_str()) {
            assert(views(points@)[k as int] == points@[k as int]@);
            return true;
        }
        assert(views(points@)[k as int] == points@[k as int]@);
        k = k + 1;
    }
    false
}

/// The reference questions that mention one of `points`, in order.
pub open spec fn matching_refs(refs: Seq<Seq<char>>, points: Seq<Seq<char>>) -> Seq<Seq<char>>
    decreases refs.len(),
{
    if refs.len() == 0 {
        refs
    } else if mentions_any(refs.last(), points) {
        matching_refs(refs.drop_last(), points).push(refs.last())
    } else {
        matching_refs(refs.drop_last(), points)
    }
}

/// The first two elements of `s`, or all of it when shorter.
pub open spec fn first_two(s: Seq<Seq<char>>) -> Seq<Seq<char>> {
    if s.len() <= 2 {
        s
    } else {
        s.take(2)
    }
}

/// The reference text for a batch: up to two reference questions that
/// mention a target point, else the first two, separated by a blank line.
pub open spec fn selected_references(refs: Seq<Seq<char>>, points: Seq<Seq<char>>) -> Seq<char> {
    if refs.len() == 0 {
        Seq::empty()
    } else {
        let matched = first_two(matching_refs(refs, points));
        join(if matched.len() == 0 { first_two(refs) } else { matched }, "\n\n"@)
    }
}

/// Picks the reference questions for a batch on `target_points`.
pub fn select_reference_questions(reference_questions: &[String], target_points: &[String]) -> (r:
    String)
    ensures
        r@ == selected_references(views(reference_questions@), views(target_points@)),
{
    let n = reference_questions.len();
    if n == 0 {
        return String::new();
    }
    let ghost refs = views(reference_questions@);
    let mut matched: Vec<String> = Vec::new();
    let mut i: usize = 0;
    while i < n
        invariant
            i <= n,
            n == reference_questions@.len(),
            refs == views(reference_questions@),
            views(matched@) == matching_refs(refs.take(i as int), views(target_points@)),
        decreases n - i,
    {
        let ghost before = matched@;
        assert(refs.take(i + 1).drop_last() =~= refs.take(i as int));
        assert(refs.take(i + 1).last() == reference_questions@[i as int]@);
        if mentions_any_point(reference_questions[i].as_str(), target_points) {
            matched.push(reference_questions[i].clone());
            assert(views(matched@) =~= views(before).push(reference_questions@[i as int]@));
        }
        i = i + 1;
    }
    assert(refs.take(n as int) =~= refs);
    let mut chosen: Vec<String> = Vec::new();
    let source = if matched.len() == 0 {
        reference_questions
    } else {
        matched.as_slice()
    };
    let m = source.len();
    let mut k: usize = 0;
    while k < m && k < 2
        invariant
            k <= m,
            k <= 2,
            m == source@.len(),
            views(chosen@) == views(source@).take(k as int),
        decreases m - k,
    {
        let ghost before = chosen@;
        chosen.push(source[k].clone());
        assert(views(chosen@) =~= views(before).push(source@[k as int]@));
        assert(views(chosen@) =~= views(source@).take(k + 1));
        k = k + 1;
    }
    assert(views(chosen@) == first_two(views(source@)));
    let mut out: Vec<char> = Vec::new();
    append_joined(&mut out, &chosen, "\n\n");
    string_from_chars(out.as_slice())
}

/// The reference question text for one earlier error: its knowledge points and
/// the first 400 characters of its question.
pub open spec fn reference_entry_text(classification: Seq<Seq<char>>, question: Seq<char>) -> Seq<
    char,
> {
    "知识点: "@ + join(classification, "、"@) + "\n原题: "@ + ellipsized(question, 400)
}

/// Formats one earlier error as a reference question for the prompt.
pub fn reference_entry(classification: &Vec<String>, question: &str) -> (r: String)
    ensures
        r@ == reference_entry_text(views(classification@), question@),
{
    let mut out: Vec<char> = Vec::new();
    append_str(&mut out, "知识点: ");
    append_joined(&mut out, classification, "、");
    append_str(&mut out, "\n原题: ");
    let preview = truncate_chars(question, 400);
    append_str(&mut out, preview.as_str());
    string_from_chars(out.as_slice())
}

/// What the next batch asks for.
pub struct PracticeBatch {
    /// How many questions the batch asks for.
    pub batch_count: u32,
    /// How many questions were generated before it.
    pub already: usize,
    /// The index of the plan item the batch follows.
    pub plan_index: usize,
    /// The plan item's primary point, then its secondary points.
    pub target_points: Vec<String>,
    /// The reference questions chosen for those points.
    pub reference: String,
}

/// The plan item for the question after `already` generated ones: the item
/// at that index, or the last item once the plan runs out.
pub open spec fn plan_index_for(n_items: nat, already: nat) -> nat {
    if already < n_items {
        already
    } else {
        (n_items - 1) as nat
    }
}

/// Decides the next batch after `already` questions of `count`, or `None`
/// when enough were generated.
pub fn plan_next_batch(
    items: &Vec<PracticeQuestionPlanItem>,
    reference_questions: &[String],
    already: usize,
    count: u32,
) -> (r: Option<PracticeBatch>)
    requires
        items@.len() > 0,
    ensures
        already >= count ==> r is None,
        already < count ==> r is Some,
        r matches Some(b) ==> {
            &&& b.already == already
            &&& b.batch_count == (if (count - already) < DEFAULT_BATCH_SIZE {
                count - already
            } else {
                DEFAULT_BATCH_SIZE as int
            })
            &&& b.plan_index == plan_index_for(items@.len(), already as nat)
            &&& views(b.target_points@) == seq![items@[b.plan_index as int].primary_point@] + views(
                items@[b.plan_index as int].secondary_points@,
            )
            &&& b.reference@ == selected_references(
                views(reference_questions@),
                views(b.target_points@),
            )
        },
{
    if already >= count as usize {
        return None;
    }
    let remaining = count as usize - already;
    let batch_count = next_batch_size(remaining as u32);
    let plan_index = if already < items.len() {
        already
    } else {
        items.len() - 1
    };
    let item = &items[plan_index];
    let mut target_points: Vec<String> = Vec::new();
    target_points.push(item.primary_point.clone());
    let n = item.secondary_points.len();
    let mut k: usize = 0;
    while k < n
        invariant
            k <= n,
            n == item.secondary_points@.len(),
            views(target_points@) == seq![item.primary_point@] + views(
                item.secondary_points@,
            ).take(k as int),
        decreases n - k,
    {
        let ghost before = target_points@;
        target_points.push(item.secondary_points[k].clone());
        assert(views(target_points@) =~= views(before).push(item.secondary_points@[k as int]@));
        assert(views(item.secondary_points@).take(k + 1) =~= views(item.secondary_points@).take(
            k as int,
        ).push(item.secondary_points@[k as int]@));
        k = k + 1;
    }
    assert(views(item.secondary_points@).take(n as int) =~= views(item.secondary_points@));
    let reference = select_reference_questions(reference_questions, target_points.as_slice());
    Some(PracticeBatch { batch_count, already, plan_index, target_points, reference })
}

/// A copy of a list of strings.
pub fn copy_strings(v: &Vec<String>) -> (r: Vec<String>)
    ensures
        views(r@) == views(v@),
{
    let n = v.len();
    let mut out: Vec<String> = Vec::new();
    let mut i: usize = 0;
    while i < n
        invariant
            i <= n,
            n == v@.len(),
            views(out@) == views(v@).take(i as int),
        decreases n - i,
    {
        let ghost before = out@;
        out.push(v[i].clone());
        assert(views(out@) =~= views(before).push(v@[i as int]@));
        assert(views(out@) =~= views(v@).take(i + 1));
        i = i + 1;
    }
    assert(views(v@).take(n as int) =~= views(v@));
    out
}

/// A copy of an image spec.
pub fn copy_image_spec(s: &PracticeImageSpec) -> (r: PracticeImageSpec)
    ensures
        r@ == s@,
{
    PracticeImageSpec {
        prompt: s.prompt.clone(),
        elements: copy_strings(&s.elements),
        fallback_allowed: s.fallback_allowed,
    }
}

/// The content of an optional image spec.
pub open spec fn spec_view(o: Option<PracticeImageSpec>) -> Option<ImageSpecModel> {
    match o {
        Some(s) => Some(s@),
        None => None,
    }
}

/// Gives a generated question the form, material and image choices of the
/// plan item it was generated for.
pub fn apply_plan_item(q: &mut PracticeQuestion, item: &PracticeQuestionPlanItem)
    ensures
        final(q).question@ == old(q).question@,
        final(q).answer@ == old(q).answer@,
        views(final(q).knowledge_points@) == views(old(q).knowledge_points@),
        final(q).image_path == old(q).image_path,
        (final(q).question_form matches Some(f) && f@ == item.question_form@),
        (final(q).material_type matches Some(m) && m@ == item.material_type@),
        final(q).requires_image == item.requires_image,
        final(q).image_role == Some(item.image_role),
        final(q).image_type == Some(item.image_type),
        final(q).dependency_mode == Some(item.dependency_mode),
        spec_view(final(q).image_spec) == spec_view(item.image_spec),
{
    q.question_form = Some(item.question_form.clone());
    q.material_type = Some(item.material_type.clone());
    q.requires_image = item.requires_image;
    q.image_role = Some(item.image_role);
    q.image_type = Some(item.image_type);
    q.dependency_mode = Some(item.dependency_mode);
    q.image_spec = match &item.image_spec {
        Some(s) => Some(copy_image_spec(s)),
        None => None,
    };
}

/// Whether a question can go without its image when generating it failed:
/// its spec allows a fallback, or the image carries no answer or source.
pub open spec fn image_fallback_allowed(q: PracticeQuestion) -> bool {
    (match q.image_spec {
        Some(s) => s.fallback_allowed,
        None => false,
    }) || !(q.image_role == Some(PracticeImageRole::AnswerBearing) || q.image_role == Some(
        PracticeImageRole::SourceMaterial,
    ))
}

/// Decides whether a failed image generation may be tolerated.
pub fn image_failure_tolerated(q: &PracticeQuestion) -> (b: bool)
    ensures
        b == image_fallback_allowed(*q),
{
    let spec_allows = match &q.image_spec {
        Some(s) => s.fallback_allowed,
        None => false,
    };
    let essential = match q.image_role {
        Some(PracticeImageRole::AnswerBearing) | Some(PracticeImageRole::SourceMaterial) => true,
        _ => false,
    };
    spec_allows || !essential
}

/// The message when a practice set does not come out at the requested size.
pub open spec fn count_mismatch_message(count: u32, got: nat, batches: u32) -> Seq<char> {
    "练习题数量不符合预期：期望 "@ + decimal(count as nat) + " 道，实际 "@ + decimal(got) + " 道（共 "@
        + decimal(batches as nat) + " 批）"@
}

/// Keeps exactly `count` questions; fails when fewer were generated.
pub fn finalize_practice_questions(all: Vec<PracticeQuestion>, count: u32, batches: u32) -> (r:
    Result<Vec<PracticeQuestion>, String>)
    ensures
        all@.len() >= count ==> (r matches Ok(v) && v@ == all@.take(count as int)),
        all@.len() < count ==> (r matches Err(m) && m@ == count_mismatch_message(
            count,
            all@.len(),
            batches,
        )),
{
    let mut all = all;
    if all.len() >= count as usize {
        all.truncate(count as usize);
        Ok(all)
    } else {
        let mut out: Vec<char> = Vec::new();
        append_str(&mut out, "练习题数量不符合预期：期望 ");
        append_decimal(&mut out, count as usize);
        append_str(&mut out, " 道，实际 ");
        append_decimal(&mut out, all.len());
        append_str(&mut out, " 道（共 ");
        append_decimal(&mut out, batches as usize);
        append_str(&mut out, " 批）");
        Err(string_from_chars(out.as_slice()))
    }
}

} // verus!
