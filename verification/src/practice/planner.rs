//! Plans for practice question sets: the image and dependency vocabularies a
//! plan uses, and the heuristic plan used when the model gives none.
use vstd::prelude::*;
use crate::text::{
    trim_start, trim_end,
    chars_of, find, join, same_text, str_contains, string_from_chars, trim, trim_chars, views,
    append_str, append_joined, contains_string,
};

verus! {

/// What an image contributes to a question.
#[derive(Debug, Clone, Copy, PartialEq, Eq, Structural)]
pub enum PracticeImageRole {
    NoImage,
    Decorative,
    Supportive,
    AnswerBearing,
    SourceMaterial,
}

/// The kind of image a question uses.
#[derive(Debug, Clone, Copy, PartialEq, Eq, Structural)]
pub enum PracticeImageType {
    NoImage,
    GeometryDiagram,
    Table,
    BarChart,
    LineChart,
    PieChart,
    SequenceDiagram,
    SceneIllustration,
    PictureStory,
    MapOrLayout,
}

/// How the text of a question depends on its image.
#[derive(Debug, Clone, Copy, PartialEq, Eq, Structural)]
pub enum PracticeDependencyMode {
    TextOnly,
    RenderFromSpec,
    JointPlanned,
    ImageFirstFinalizeText,
}

/// What the image of a planned question should show.
#[derive(Debug, Clone)]
pub struct PracticeImageSpec {
    pub prompt: String,
    pub elements: Vec<String>,
    pub fallback_allowed: bool,
}

/// The characters of a token after normalisation: ASCII upper case lowered,
/// `-` and ` ` turned into `_`.
pub open spec fn token_char(c: char) -> char {
    if 'A' <= c && c <= 'Z' {
        ((c as u32) + 32) as char
    } else if c == '-' || c == ' ' {
        '_'
    } else {
        c
    }
}

/// `raw` trimmed, ASCII-lowercased, with `-` and ` ` replaced by `_`.
pub open spec fn normalized_token(raw: Seq<char>) -> Seq<char> {
    trim(raw).map_values(|c: char| token_char(c))
}

fn normalize_char(c: char) -> (r: char)
    ensures
        r == token_char(c),
{
    if 'A' <= c && c <= 'Z' {
        let u = (c as u32) + 32;
        let b = u as u8;
        b as char
    } else if c == '-' || c == ' ' {
        '_'
    } else {
        c
    }
}

/// Normalises an enum token the model wrote: trimmed, ASCII-lowercased, with
/// `-` and ` ` replaced by `_`.
pub fn normalize_enum_token(raw: &str) -> (r: String)
    ensures
        r@ == normalized_token(raw@),
{
    let v = chars_of(raw);
    let t = trim_chars(v.as_slice());
    let n = t.len();
    let mut out: Vec<char> = Vec::new();
    let mut i: usize = 0;
    while i < n
        invariant
            i <= n,
            n == t@.len(),
            out@ == t@.take(i as int).map_values(|c: char| token_char(c)),
        decreases n - i,
    {
        out.push(normalize_char(t[i]));
        assert(t@.take(i + 1).map_values(|c: char| token_char(c)) =~= t@.take(i as int).map_values(
            |c: char| token_char(c),
        ).push(token_char(t@[i as int])));
        i = i + 1;
    }
    assert(t@.take(n as int) =~= t@);
    string_from_chars(out.as_slice())
}

/// A token of lower-case ASCII letters and `_` is its own normal form.
pub proof fn lemma_normalized_plain(s: Seq<char>)
    requires
        s.len() > 0,
        forall|i: int| 0 <= i < s.len() ==> ('a' <= #[trigger] s[i] && s[i] <= 'z') || s[i] == '_',
    ensures
        normalized_token(s) == s,
{
    assert(trim_start(s) == s);
    assert(trim_end(s) == s);
    assert(s.map_values(|c: char| token_char(c)) =~= s);
}

/// The image role a normalised token names.
pub open spec fn image_role_token(t: Seq<char>) -> Option<PracticeImageRole> {
    if t == "none"@ || t == "no_image"@ {
        Some(PracticeImageRole::NoImage)
    } else if t == "decorative"@ {
        Some(PracticeImageRole::Decorative)
    } else if t == "supportive"@ || t == "support"@ {
        Some(PracticeImageRole::Supportive)
    } else if t == "answer_bearing"@ || t == "answerbearing"@ || t == "essential"@ {
        Some(PracticeImageRole::AnswerBearing)
    } else if t == "source_material"@ || t == "sourcematerial"@ {
        Some(PracticeImageRole::SourceMaterial)
    } else {
        None
    }
}

impl PracticeImageRole {
    /// The role a normalised token names, aliases included.
    pub fn from_token(t: &str) -> (r: Option<PracticeImageRole>)
        ensures
            r == image_role_token(t@),
    {
        if same_text(t, "none") || same_text(t, "no_image") {
            Some(PracticeImageRole::NoImage)
        } else if same_text(t, "decorative") {
            Some(PracticeImageRole::Decorative)
        } else if same_text(t, "supportive") || same_text(t, "support") {
            Some(PracticeImageRole::Supportive)
        } else if same_text(t, "answer_bearing") || same_text(t, "answerbearing") || same_text(
            t,
            "essential",
        ) {
            Some(PracticeImageRole::AnswerBearing)
        } else if same_text(t, "source_material") || same_text(t, "sourcematerial") {
            Some(PracticeImageRole::SourceMaterial)
        } else {
            None
        }
    }

    /// The canonical token of the role.
    pub fn as_str(&self) -> (s: &'static str)
        ensures
            s@ == image_role_name(*self),
    {
        match self {
            PracticeImageRole::NoImage => "none",
            PracticeImageRole::Decorative => "decorative",
            PracticeImageRole::Supportive => "supportive",
            PracticeImageRole::AnswerBearing => "answer_bearing",
            PracticeImageRole::SourceMaterial => "source_material",
        }
    }
}

/// The canonical token of an image role.
pub open spec fn image_role_name(r: PracticeImageRole) -> Seq<char> {
    match r {
        PracticeImageRole::NoImage => "none"@,
        PracticeImageRole::Decorative => "decorative"@,
        PracticeImageRole::Supportive => "supportive"@,
        PracticeImageRole::AnswerBearing => "answer_bearing"@,
        PracticeImageRole::SourceMaterial => "source_material"@,
    }
}

/// Writing an image role out and reading the token back gives the same role.
pub proof fn image_role_token_round_trip(r: PracticeImageRole)
    ensures
        image_role_token(normalized_token(image_role_name(r))) == Some(r),
{
    reveal_strlit("none");
    reveal_strlit("no_image");
    reveal_strlit("decorative");
    reveal_strlit("supportive");
    reveal_strlit("support");
    reveal_strlit("answer_bearing");
    reveal_strlit("answerbearing");
    reveal_strlit("essential");
    reveal_strlit("source_material");
    reveal_strlit("sourcematerial");
    lemma_normalized_plain(image_role_name(r));
}

/// The image type a normalised token names.
pub open spec fn image_type_token(t: Seq<char>) -> Option<PracticeImageType> {
    if t == "none"@ || t == "no_image"@ {
        Some(PracticeImageType::NoImage)
    } else if t == "diagram"@ || t == "geometry_diagram"@ || t == "geometry"@ || t
        == "math_diagram"@ || t == "mathdiagram"@ {
        Some(PracticeImageType::GeometryDiagram)
    } else if t == "table"@ {
        Some(PracticeImageType::Table)
    } else if t == "bar_chart"@ || t == "barchart"@ {
        Some(PracticeImageType::BarChart)
    } else if t == "line_chart"@ || t == "linechart"@ {
        Some(PracticeImageType::LineChart)
    } else if t == "pie_chart"@ || t == "piechart"@ {
        Some(PracticeImageType::PieChart)
    } else if t == "sequence_diagram"@ || t == "sequence"@ {
        Some(PracticeImageType::SequenceDiagram)
    } else if t == "scene_illustration"@ || t == "scene"@ || t == "illustration"@ {
        Some(PracticeImageType::SceneIllustration)
    } else if t == "picture_story"@ || t == "picturestory"@ {
        Some(PracticeImageType::PictureStory)
    } else if t == "map_or_layout"@ || t == "map"@ || t == "layout"@ {
        Some(PracticeImageType::MapOrLayout)
    } else {
        None
    }
}

impl PracticeImageType {
    /// The image type a normalised token names, aliases included.
    pub fn from_token(t: &str) -> (r: Option<PracticeImageType>)
        ensures
            r == image_type_token(t@),
    {
        if same_text(t, "none") || same_text(t, "no_image") {
            Some(PracticeImageType::NoImage)
        } else if same_text(t, "diagram") || same_text(t, "geometry_diagram") || same_text(
            t,
            "geometry",
        ) || same_text(t, "math_diagram") || same_text(t, "mathdiagram") {
            Some(PracticeImageType::GeometryDiagram)
        } else if same_text(t, "table") {
            Some(PracticeImageType::Table)
        } else if same_text(t, "bar_chart") || same_text(t, "barchart") {
            Some(PracticeImageType::BarChart)
        } else if same_text(t, "line_chart") || same_text(t, "linechart") {
            Some(PracticeImageType::LineChart)
        } else if same_text(t, "pie_chart") || same_text(t, "piechart") {
            Some(PracticeImageType::PieChart)
        } else if same_text(t, "sequence_diagram") || same_text(t, "sequence") {
            Some(PracticeImageType::SequenceDiagram)
        } else if same_text(t, "scene_illustration") || same_text(t, "scene") || same_text(
            t,
            "illustration",
        ) {
            Some(PracticeImageType::SceneIllustration)
        } else if same_text(t, "picture_story") || same_text(t, "picturestory") {
            Some(PracticeImageType::PictureStory)
        } else if same_text(t, "map_or_layout") || same_text(t, "map") || same_text(t, "layout") {
            Some(PracticeImageType::MapOrLayout)
        } else {
            None
        }
    }

    /// The canonical token of the image type.
    pub fn as_str(&self) -> (s: &'static str)
        ensures
            s@ == image_type_name(*self),
    {
        match self {
            PracticeImageType::NoImage => "none",
            PracticeImageType::GeometryDiagram => "geometry_diagram",
            PracticeImageType::Table => "table",
            PracticeImageType::BarChart => "bar_chart",
            PracticeImageType::LineChart => "line_chart",
            PracticeImageType::PieChart => "pie_chart",
            PracticeImageType::SequenceDiagram => "sequence_diagram",
            PracticeImageType::SceneIllustration => "scene_illustration",
            PracticeImageType::PictureStory => "picture_story",
            PracticeImageType::MapOrLayout => "map_or_layout",
        }
    }
}

/// The canonical token of an image type.
pub open spec fn image_type_name(t: PracticeImageType) -> Seq<char> {
    match t {
        PracticeImageType::NoImage => "none"@,
        PracticeImageType::GeometryDiagram => "geometry_diagram"@,
        PracticeImageType::Table => "table"@,
        PracticeImageType::BarChart => "bar_chart"@,
        PracticeImageType::LineChart => "line_chart"@,
        PracticeImageType::PieChart => "pie_chart"@,
        PracticeImageType::SequenceDiagram => "sequence_diagram"@,
        PracticeImageType::SceneIllustration => "scene_illustration"@,
        PracticeImageType::PictureStory => "picture_story"@,
        PracticeImageType::MapOrLayout => "map_or_layout"@,
    }
}

/// The dependency mode a normalised token names.
pub open spec fn dependency_mode_token(t: Seq<char>) -> Option<PracticeDependencyMode> {
    if t == "text_only"@ || t == "textonly"@ || t == "standalone"@ {
        Some(PracticeDependencyMode::TextOnly)
    } else if t == "render_from_spec"@ || t == "renderfromspec"@ {
        Some(PracticeDependencyMode::RenderFromSpec)
    } else if t == "joint_planned"@ || t == "jointplanned"@ {
        Some(PracticeDependencyMode::JointPlanned)
    } else if t == "image_first_finalize_text"@ || t == "imagefirstfinalizetext"@ {
        Some(PracticeDependencyMode::ImageFirstFinalizeText)
    } else if t == "essential"@ {
        Some(PracticeDependencyMode::RenderFromSpec)
    } else {
        None
    }
}

impl PracticeDependencyMode {
    /// The dependency mode a normalised token names, aliases included.
    pub fn from_token(t: &str) -> (r: Option<PracticeDependencyMode>)
        ensures
            r == dependency_mode_token(t@),
    {
        if same_text(t, "text_only") || same_text(t, "textonly") || same_text(t, "standalone") {
            Some(PracticeDependencyMode::TextOnly)
        } else if same_text(t, "render_from_spec") || same_text(t, "renderfromspec") {
            Some(PracticeDependencyMode::RenderFromSpec)
        } else if same_text(t, "joint_planned") || same_text(t, "jointplanned") {
            Some(PracticeDependencyMode::JointPlanned)
        } else if same_text(t, "image_first_finalize_text") || same_text(
            t,
            "imagefirstfinalizetext",
        ) {
            Some(PracticeDependencyMode::ImageFirstFinalizeText)
        } else if same_text(t, "essential") {
            Some(PracticeDependencyMode::RenderFromSpec)
        } else {
            None
        }
    }

    /// The canonical token of the dependency mode.
    pub fn as_str(&self) -> (s: &'static str)
        ensures
            s@ == dependency_mode_name(*self),
    {
        match self {
            PracticeDependencyMode::TextOnly => "text_only",
            PracticeDependencyMode::RenderFromSpec => "render_from_spec",
            PracticeDependencyMode::JointPlanned => "joint_planned",
            PracticeDependencyMode::ImageFirstFinalizeText => "image_first_finalize_text",
        }
    }
}

/// The canonical token of a dependency mode.
pub open spec fn dependency_mode_name(m: PracticeDependencyMode) -> Seq<char> {
    match m {
        PracticeDependencyMode::TextOnly => "text_only"@,
        PracticeDependencyMode::RenderFromSpec => "render_from_spec"@,
        PracticeDependencyMode::JointPlanned => "joint_planned"@,
        PracticeDependencyMode::ImageFirstFinalizeText => "image_first_finalize_text"@,
    }
}

/// Writing an image type out and reading the token back gives the same type.
pub proof fn image_type_token_round_trip(t: PracticeImageType)
    ensures
        image_type_token(normalized_token(image_type_name(t))) == Some(t),
{
    reveal_strlit("bar_chart");
    reveal_strlit("barchart");
    reveal_strlit("diagram");
    reveal_strlit("geometry");
    reveal_strlit("geometry_diagram");
    reveal_strlit("illustration");
    reveal_strlit("layout");
    reveal_strlit("line_chart");
    reveal_strlit("linechart");
    reveal_strlit("map");
    reveal_strlit("map_or_layout");
    reveal_strlit("math_diagram");
    reveal_strlit("mathdiagram");
    reveal_strlit("no_image");
    reveal_strlit("none");
    reveal_strlit("picture_story");
    reveal_strlit("picturestory");
    reveal_strlit("pie_chart");
    reveal_strlit("piechart");
    reveal_strlit("scene");
    reveal_strlit("scene_illustration");
    reveal_strlit("sequence");
    reveal_strlit("sequence_diagram");
    reveal_strlit("table");
    lemma_normalized_plain(image_type_name(t));
}

/// Writing a dependency mode out and reading the token back gives the same mode.
pub proof fn dependency_mode_token_round_trip(m: PracticeDependencyMode)
    ensures
        dependency_mode_token(normalized_token(dependency_mode_name(m))) == Some(m),
{
    reveal_strlit("essential");
    reveal_strlit("image_first_finalize_text");
    reveal_strlit("imagefirstfinalizetext");
    reveal_strlit("joint_planned");
    reveal_strlit("jointplanned");
    reveal_strlit("render_from_spec");
    reveal_strlit("renderfromspec");
    reveal_strlit("standalone");
    reveal_strlit("text_only");
    reveal_strlit("textonly");
    lemma_normalized_plain(dependency_mode_name(m));
}

// ── plans ────────────────────────────────────────────────────────────

/// One planned question.
#[derive(Debug, Clone)]
pub struct PracticeQuestionPlanItem {
    pub index: u32,
    pub primary_point: String,
    pub secondary_points: Vec<String>,
    pub question_form: String,
    pub material_type: String,
    pub target_reference_ids: Vec<String>,
    pub avoid_topics: Vec<String>,
    pub requires_image: bool,
    pub image_role: PracticeImageRole,
    pub image_type: PracticeImageType,
    pub dependency_mode: PracticeDependencyMode,
    pub image_spec: Option<PracticeImageSpec>,
}

/// A plan for a practice set.
#[derive(Debug, Clone)]
pub struct PracticePlan {
    pub subject: String,
    pub grade_level: String,
    pub count: u32,
    pub rationale: String,
    pub items: Vec<PracticeQuestionPlanItem>,
}

/// The content of an image spec.
pub struct ImageSpecModel {
    pub prompt: Seq<char>,
    pub elements: Seq<Seq<char>>,
    pub fallback_allowed: bool,
}

impl View for PracticeImageSpec {
    type V = ImageSpecModel;

    open spec fn view(&self) -> ImageSpecModel {
        ImageSpecModel {
            prompt: self.prompt@,
            elements: views(self.elements@),
            fallback_allowed: self.fallback_allowed,
        }
    }
}

/// The content of a planned question.
pub struct PlanItemModel {
    pub index: u32,
    pub primary_point: Seq<char>,
    pub secondary_points: Seq<Seq<char>>,
    pub question_form: Seq<char>,
    pub material_type: Seq<char>,
    pub target_reference_ids: Seq<Seq<char>>,
    pub avoid_topics: Seq<Seq<char>>,
    pub requires_image: bool,
    pub image_role: PracticeImageRole,
    pub image_type: PracticeImageType,
    pub dependency_mode: PracticeDependencyMode,
    pub image_spec: Option<ImageSpecModel>,
}

impl View for PracticeQuestionPlanItem {
    type V = PlanItemModel;

    open spec fn view(&self) -> PlanItemModel {
        PlanItemModel {
            index: self.index,
            primary_point: self.primary_point@,
            secondary_points: views(self.secondary_points@),
            question_form: self.question_form@,
            material_type: self.material_type@,
            target_reference_ids: views(self.target_reference_ids@),
            avoid_topics: views(self.avoid_topics@),
            requires_image: self.requires_image,
            image_role: self.image_role,
            image_type: self.image_type,
            dependency_mode: self.dependency_mode,
            image_spec: match self.image_spec {
                Some(sp) => Some(sp@),
                None => None,
            },
        }
    }
}

/// The content of a plan.
pub struct PlanModel {
    pub subject: Seq<char>,
    pub grade_level: Seq<char>,
    pub count: u32,
    pub rationale: Seq<char>,
    pub items: Seq<PlanItemModel>,
}

/// The contents of planned questions.
pub open spec fn item_views(v: Seq<PracticeQuestionPlanItem>) -> Seq<PlanItemModel> {
    v.map_values(|i: PracticeQuestionPlanItem| i@)
}

impl View for PracticePlan {
    type V = PlanModel;

    open spec fn view(&self) -> PlanModel {
        PlanModel {
            subject: self.subject@,
            grade_level: self.grade_level@,
            count: self.count,
            rationale: self.rationale@,
            items: item_views(self.items@),
        }
    }
}

/// A plan around questions the model listed without the plan's wrapper.
pub fn practice_plan_from_items(items: Vec<PracticeQuestionPlanItem>) -> (p: PracticePlan)
    ensures
        p@.subject == "未指定"@,
        p@.grade_level == "未指定"@,
        p@.count == items@.len() as u32,
        p@.rationale == "root_array_fallback"@,
        p.items@ == items@,
{
    let count = items.len() as u32;
    PracticePlan {
        subject: "未指定".to_owned(),
        grade_level: "未指定".to_owned(),
        count,
        rationale: "root_array_fallback".to_owned(),
        items,
    }
}

// ── the heuristic plan ───────────────────────────────────────────────

/// The lower-case form of `s` that `str::to_lowercase` computes.
pub uninterp spec fn lowercase(s: Seq<char>) -> Seq<char>;

/// Calls `str::to_lowercase`; the contract names the result.
#[verifier::external_body]
fn to_lowercase(s: &str) -> (r: String)
    ensures
        r@ == lowercase(s@),
{
    s.to_lowercase()
}

/// Where de-duplicating the weak points stands.
pub struct DedupeState {
    pub out: Seq<Seq<char>>,
    pub seen: Seq<Seq<char>>,
}

/// De-duplication after the first `n` points: each trimmed, non-empty point
/// whose lower-case form was not seen before is kept.
pub open spec fn dedupe_scan(points: Seq<Seq<char>>, n: int) -> DedupeState
    decreases n,
{
    if n <= 0 {
        DedupeState { out: Seq::empty(), seen: Seq::empty() }
    } else {
        let st = dedupe_scan(points, n - 1);
        let t = trim(points[n - 1]);
        if t.len() == 0 || st.seen.contains(lowercase(t)) {
            st
        } else {
            DedupeState { out: st.out.push(t), seen: st.seen.push(lowercase(t)) }
        }
    }
}

proof fn lemma_dedupe_scan(points: Seq<Seq<char>>, n: int)
    requires
        0 <= n <= points.len(),
    ensures
        ({
            let st = dedupe_scan(points, n);
            &&& st.seen.len() == st.out.len()
            &&& forall|i: int| 0 <= i < st.out.len() ==> #[trigger] st.seen[i] == lowercase(st.out[i])
            &&& forall|i: int, j: int|
                0 <= i < j < st.out.len() ==> lowercase(#[trigger] st.out[i]) != lowercase(
                    #[trigger] st.out[j],
                )
            &&& forall|k: int|
                0 <= k < n && trim(#[trigger] points[k]).len() > 0 ==> st.seen.contains(
                    lowercase(trim(points[k])),
                )
            &&& forall|i: int|
                0 <= i < st.out.len() ==> st.out[i].len() > 0 && exists|k: int|
                    0 <= k < n && #[trigger] st.out[i] == trim(points[k])
        }),
    decreases n,
{
    if n > 0 {
        lemma_dedupe_scan(points, n - 1);
        let prev = dedupe_scan(points, n - 1);
        let st = dedupe_scan(points, n);
        let t = trim(points[n - 1]);
        if !(t.len() == 0 || prev.seen.contains(lowercase(t))) {
            assert forall|i: int, j: int|
                0 <= i < j < st.out.len() implies lowercase(#[trigger] st.out[i]) != lowercase(
                #[trigger] st.out[j],
            ) by {
                if j == st.out.len() - 1 {
                    assert(prev.seen[i] == lowercase(prev.out[i]));
                    assert(prev.seen.contains(prev.seen[i]));
                }
            }
            assert forall|i: int| 0 <= i < st.out.len() implies st.out[i].len() > 0 && exists|k: int|
                0 <= k < n && #[trigger] st.out[i] == trim(points[k]) by {
                if i == st.out.len() - 1 {
                    assert(st.out[i] == trim(points[n - 1]));
                } else {
                    assert(st.out[i] == prev.out[i]);
                }
            }
            assert forall|k: int|
                0 <= k < n && trim(#[trigger] points[k]).len() > 0 implies st.seen.contains(
                lowercase(trim(points[k])),
            ) by {
                if k < n - 1 {
                    let w = choose|w: int| 0 <= w < prev.seen.len() && prev.seen[w] == lowercase(trim(points[k]));
                    assert(st.seen[w] == prev.seen[w]);
                } else {
                    assert(st.seen[st.seen.len() - 1] == lowercase(t));
                }
            }
        } else {
            assert forall|k: int|
                0 <= k < n && trim(#[trigger] points[k]).len() > 0 implies st.seen.contains(
                lowercase(trim(points[k])),
            ) by {
                if k == n - 1 {
                    assert(prev.seen.contains(lowercase(t)));
                }
            }
        }
    }
}

/// De-duplicating weak points keeps no two points with the same lower-case
/// form, keeps every non-blank point in that form, and adds nothing: each kept
/// point is the trimmed form of an input point. With no non-blank point the
/// result is the generic point alone.
pub proof fn deduped_points_are_distinct_and_complete(points: Seq<Seq<char>>)
    ensures
        ({
            let d = deduped_points(points);
            &&& forall|i: int, j: int|
                0 <= i < j < d.len() ==> lowercase(#[trigger] d[i]) != lowercase(#[trigger] d[j])
            &&& forall|k: int|
                0 <= k < points.len() && trim(#[trigger] points[k]).len() > 0 ==> exists|i: int|
                    0 <= i < d.len() && lowercase(#[trigger] d[i]) == lowercase(trim(points[k]))
            &&& (forall|k: int| 0 <= k < points.len() ==> trim(#[trigger] points[k]).len() == 0) ==> d
                == seq!["综合练习"@]
            &&& (exists|k: int| 0 <= k < points.len() && trim(#[trigger] points[k]).len() > 0)
                ==> forall|i: int|
                0 <= i < d.len() ==> exists|k: int|
                    0 <= k < points.len() && #[trigger] d[i] == trim(points[k])
        }),
{
    let n = points.len() as int;
    lemma_dedupe_scan(points, n);
    let st = dedupe_scan(points, n);
    let d = deduped_points(points);
    assert forall|k: int|
        0 <= k < points.len() && trim(#[trigger] points[k]).len() > 0 implies exists|i: int|
        0 <= i < d.len() && lowercase(#[trigger] d[i]) == lowercase(trim(points[k])) by {
        assert(st.seen.contains(lowercase(trim(points[k]))));
        let w = choose|w: int| 0 <= w < st.seen.len() && st.seen[w] == lowercase(trim(points[k]));
        assert(st.seen[w] == lowercase(st.out[w]));
        assert(d[w] == st.out[w]);
    }
    if exists|k: int| 0 <= k < points.len() && trim(#[trigger] points[k]).len() > 0 {
        let k = choose|k: int| 0 <= k < points.len() && trim(#[trigger] points[k]).len() > 0;
        assert(st.seen.contains(lowercase(trim(points[k]))));
        assert(st.out.len() > 0);
    } else {
        if st.out.len() > 0 {
            let w = choose|w: int| 0 <= w < n && #[trigger] st.out[0] == trim(points[w]);
            assert(trim(points[w]).len() == 0);
        }
    }
}

/// The distinct weak points, or the generic point when there is none.
pub open spec fn deduped_points(points: Seq<Seq<char>>) -> Seq<Seq<char>> {
    let out = dedupe_scan(points, points.len() as int).out;
    if out.len() == 0 {
        seq!["综合练习"@]
    } else {
        out
    }
}

/// The weak points trimmed, without blanks and without repeats up to case;
/// the generic point "综合练习" when nothing is left.
pub fn dedupe_points(weak_points: &[String]) -> (r: Vec<String>)
    ensures
        views(r@) == deduped_points(views(weak_points@)),
        r@.len() > 0,
{
    let n = weak_points.len();
    let ghost pts = views(weak_points@);
    let mut seen: Vec<String> = Vec::new();
    let mut out: Vec<String> = Vec::new();
    let mut i: usize = 0;
    while i < n
        invariant
            i <= n,
            n == weak_points@.len(),
            pts == views(weak_points@),
            views(out@) == dedupe_scan(pts, i as int).out,
            views(seen@) == dedupe_scan(pts, i as int).seen,
        decreases n - i,
    {
        let v = chars_of(weak_points[i].as_str());
        let t = trim_chars(v.as_slice());
        assert(pts[i as int] == weak_points@[i as int]@);
        if t.len() > 0 {
            let ts = string_from_chars(t.as_slice());
            let key = to_lowercase(ts.as_str());
            if !contains_string(&seen, key.as_str()) {
                let ghost so = seen@;
                let ghost oo = out@;
                seen.push(key);
                out.push(ts);
                assert(views(seen@) =~= views(so).push(lowercase(t@)));
                assert(views(out@) =~= views(oo).push(t@));
            }
        }
        i = i + 1;
    }
    if out.len() == 0 {
        out.push("综合练习".to_owned());
        assert(views(out@) =~= seq!["综合练习"@]);
    }
    out
}

/// The compatibility group of a weak point, for pairing it with another.
pub open spec fn compat_group(p: Seq<char>) -> Option<Seq<char>> {
    if p == "应用题"@ || p == "数量关系"@ || p == "审题"@ || p == "列式"@ {
        Some("math_word_problem"@)
    } else if p == "阅读理解"@ || p == "提取信息"@ || p == "概括中心"@ {
        Some("reading"@)
    } else if p == "看图写话"@ {
        Some("scene"@)
    } else if p == "完形填空"@ || p == "上下文推断"@ {
        Some("english_cloze"@)
    } else {
        None
    }
}

/// The compatibility group of a weak point, if it belongs to one.
pub fn compatibility_group(p: &str) -> (r: Option<&'static str>)
    ensures
        r matches Some(g) ==> compat_group(p@) == Some(g@),
        r is None ==> compat_group(p@) is None,
{
    if same_text(p, "应用题") || same_text(p, "数量关系") || same_text(p, "审题") || same_text(
        p,
        "列式",
    ) {
        Some("math_word_problem")
    } else if same_text(p, "阅读理解") || same_text(p, "提取信息") || same_text(p, "概括中心") {
        Some("reading")
    } else if same_text(p, "看图写话") {
        Some("scene")
    } else if same_text(p, "完形填空") || same_text(p, "上下文推断") {
        Some("english_cloze")
    } else {
        None
    }
}

/// The first point from index `i` on that differs from `primary`, shares its
/// group `group`, and whose index has the parity of `batch`.
pub open spec fn secondary_from(
    points: Seq<Seq<char>>,
    primary: Seq<char>,
    group: Seq<char>,
    batch: int,
    i: int,
) -> Option<Seq<char>>
    decreases points.len() - i,
{
    if i < 0 || i >= points.len() {
        None
    } else if points[i] != primary && compat_group(points[i]) == Some(group) && (batch + i) % 2
        == 0 {
        Some(points[i])
    } else {
        secondary_from(points, primary, group, batch, i + 1)
    }
}

/// The point paired with `primary` in batch `batch`, if any.
pub open spec fn secondary_point(points: Seq<Seq<char>>, primary: Seq<char>, batch: int) -> Option<
    Seq<char>,
> {
    match compat_group(primary) {
        None => None,
        Some(g) => secondary_from(points, primary, g, batch, 0),
    }
}

/// Picks a second point of the same group as `primary` for batch
/// `batch_index`, alternating by index parity.
pub fn choose_secondary_point(points: &[String], primary: &str, batch_index: usize) -> (r: Option<
    String,
>)
    ensures
        r matches Some(p) ==> secondary_point(views(points@), primary@, batch_index as int) == Some(
            p@,
        ),
        r is None ==> secondary_point(views(points@), primary@, batch_index as int) is None,
{
    let primary_group = match compatibility_group(primary) {
        Some(g) => g,
        None => return None,
    };
    let ghost pts = views(points@);
    let n = points.len();
    let mut i: usize = 0;
    while i < n
        invariant
            i <= n,
            n == points@.len(),
            pts == views(points@),
            compat_group(primary@) == Some(primary_group@),
            secondary_point(pts, primary@, batch_index as int) == secondary_from(
                pts,
                primary@,
                primary_group@,
                batch_index as int,
                i as int,
            ),
        decreases n - i,
    {
        let p = points[i].as_str();
        assert(pts[i as int] == p@);
        let same_group = match compatibility_group(p) {
            Some(g) => same_text(g, primary_group),
            None => false,
        };
        let even = (batch_index % 2 + i % 2) % 2 == 0;
        assert(((batch_index % 2 + i % 2) % 2 == 0) == ((batch_index + i) % 2 == 0))
            by (nonlinear_arith);
        if !same_text(p, primary) && same_group && even {
            return Some(points[i].clone());
        }
        i = i + 1;
    }
    None
}

/// Whether `lit` occurs in `s`.
pub open spec fn has(s: Seq<char>, lit: Seq<char>) -> bool {
    find(s, lit) is Some
}

/// Form, material, whether an image is needed, and the image's role, type and
/// dependency for a question on the points `joined` in `subject`.
pub open spec fn question_shape(subject: Seq<char>, joined: Seq<char>) -> (
    Seq<char>,
    Seq<char>,
    bool,
    PracticeImageRole,
    PracticeImageType,
    PracticeDependencyMode,
) {
    if has(subject, "数学"@) && (has(joined, "几何"@) || has(joined, "图形"@)) {
        (
            "图形题"@,
            "diagram"@,
            true,
            PracticeImageRole::AnswerBearing,
            PracticeImageType::GeometryDiagram,
            PracticeDependencyMode::RenderFromSpec,
        )
    } else if has(subject, "数学"@) && (has(joined, "统计"@) || has(joined, "表格"@)) {
        (
            "统计图表题"@,
            "chart"@,
            true,
            PracticeImageRole::AnswerBearing,
            PracticeImageType::BarChart,
            PracticeDependencyMode::RenderFromSpec,
        )
    } else if (has(subject, "语文"@) && has(joined, "看图"@)) || (has(subject, "英语"@) && (has(
        joined,
        "看图"@,
    ) || has(joined, "场景"@))) {
        (
            "看图表达"@,
            "scene"@,
            true,
            PracticeImageRole::SourceMaterial,
            PracticeImageType::SceneIllustration,
            PracticeDependencyMode::ImageFirstFinalizeText,
        )
    } else {
        (
            "综合练习题"@,
            if has(subject, "语文"@) || has(subject, "英语"@) {
                "passage"@
            } else {
                "text"@
            },
            false,
            PracticeImageRole::NoImage,
            PracticeImageType::NoImage,
            PracticeDependencyMode::TextOnly,
        )
    }
}

/// The shape of a question on `primary` and `secondary` in `subject`.
pub fn infer_question_shape(subject: &str, primary: &str, secondary: &[String]) -> (r: (
    String,
    String,
    bool,
    PracticeImageRole,
    PracticeImageType,
    PracticeDependencyMode,
))
    ensures
        (r.0@, r.1@, r.2, r.3, r.4, r.5) == question_shape(
            subject@,
            join(seq![primary@] + views(secondary@), "/"@),
        ),
{
    let mut all: Vec<String> = Vec::new();
    all.push(primary.to_owned());
    let n = secondary.len();
    let mut i: usize = 0;
    while i < n
        invariant
            i <= n,
            n == secondary@.len(),
            views(all@) == seq![primary@] + views(secondary@).take(i as int),
        decreases n - i,
    {
        let ghost before = all@;
        all.push(secondary[i].clone());
        assert(views(all@) =~= views(before).push(secondary@[i as int]@));
        assert(views(secondary@).take(i + 1) =~= views(secondary@).take(i as int).push(
            secondary@[i as int]@,
        ));
        i = i + 1;
    }
    assert(views(secondary@).take(n as int) =~= views(secondary@));
    let mut jv: Vec<char> = Vec::new();
    append_joined(&mut jv, &all, "/");
    let joined = string_from_chars(jv.as_slice());
    let j = joined.as_str();
    let math = str_contains(subject, "数学");
    let chinese = str_contains(subject, "语文");
    let english = str_contains(subject, "英语");
    if math && (str_contains(j, "几何") || str_contains(j, "图形")) {
        return (
            "图形题".to_owned(),
            "diagram".to_owned(),
            true,
            PracticeImageRole::AnswerBearing,
            PracticeImageType::GeometryDiagram,
            PracticeDependencyMode::RenderFromSpec,
        );
    }
    if math && (str_contains(j, "统计") || str_contains(j, "表格")) {
        return (
            "统计图表题".to_owned(),
            "chart".to_owned(),
            true,
            PracticeImageRole::AnswerBearing,
            PracticeImageType::BarChart,
            PracticeDependencyMode::RenderFromSpec,
        );
    }
    if chinese && str_contains(j, "看图") {
        return (
            "看图表达".to_owned(),
            "scene".to_owned(),
            true,
            PracticeImageRole::SourceMaterial,
            PracticeImageType::SceneIllustration,
            PracticeDependencyMode::ImageFirstFinalizeText,
        );
    }
    if english && (str_contains(j, "看图") || str_contains(j, "场景")) {
        return (
            "看图表达".to_owned(),
            "scene".to_owned(),
            true,
            PracticeImageRole::SourceMaterial,
            PracticeImageType::SceneIllustration,
            PracticeDependencyMode::ImageFirstFinalizeText,
        );
    }
    (
        "综合练习题".to_owned(),
        if chinese || english {
            "passage".to_owned()
        } else {
            "text".to_owned()
        },
        false,
        PracticeImageRole::NoImage,
        PracticeImageType::NoImage,
        PracticeDependencyMode::TextOnly,
    )
}

/// The secondary points of the question at `idx`: the paired point, if any.
pub open spec fn heuristic_secondary(points: Seq<Seq<char>>, idx: int) -> Seq<Seq<char>> {
    let primary = points[idx % (points.len() as int)];
    match secondary_point(points, primary, idx) {
        Some(p) => seq![p],
        None => Seq::empty(),
    }
}

/// The heuristic plan's question at `idx`, over the de-duplicated points.
pub open spec fn heuristic_item(subject: Seq<char>, points: Seq<Seq<char>>, idx: int) -> PlanItemModel {
    let primary = points[idx % (points.len() as int)];
    let secondary = heuristic_secondary(points, idx);
    let shape = question_shape(subject, join(seq![primary] + secondary, "/"@));
    PlanItemModel {
        index: (idx + 1) as u32,
        primary_point: primary,
        secondary_points: secondary,
        question_form: shape.0,
        material_type: shape.1,
        target_reference_ids: Seq::empty(),
        avoid_topics: Seq::empty(),
        requires_image: shape.2,
        image_role: shape.3,
        image_type: shape.4,
        dependency_mode: shape.5,
        image_spec: None,
    }
}

/// A plan of `count` questions without the model: the distinct weak points in
/// rotation, each paired with a compatible point where one exists, shaped by
/// subject and points.
pub fn heuristic_plan(subject: &str, grade_level: &str, weak_points: &[String], count: u32) -> (p:
    PracticePlan)
    ensures
        p@.subject == subject@,
        p@.grade_level == grade_level@,
        p@.count == count,
        p@.rationale == "heuristic_fallback"@,
        p@.items.len() == count,
        forall|k: int|
            0 <= k < count ==> #[trigger] p@.items[k] == heuristic_item(
                subject@,
                deduped_points(views(weak_points@)),
                k,
            ),
{
    let canonical = dedupe_points(weak_points);
    let ghost pts = views(canonical@);
    let m = canonical.len();
    let total = count as usize;
    let mut items: Vec<PracticeQuestionPlanItem> = Vec::new();
    let mut idx: usize = 0;
    while idx < total
        invariant
            idx <= total,
            total == count,
            m == canonical@.len(),
            m > 0,
            pts == views(canonical@),
            pts == deduped_points(views(weak_points@)),
            items@.len() == idx,
            forall|k: int| 0 <= k < idx ==> #[trigger] item_views(items@)[k] == heuristic_item(
                subject@,
                pts,
                k,
            ),
        decreases total - idx,
    {
        let primary = canonical[idx % m].clone();
        assert(pts[(idx % m) as int] == primary@);
        let secondary: Vec<String> = match choose_secondary_point(
            canonical.as_slice(),
            primary.as_str(),
            idx,
        ) {
            Some(sp) => {
                let mut v = Vec::new();
                v.push(sp);
                v
            },
            None => Vec::new(),
        };
        assert(views(secondary@) =~= heuristic_secondary(pts, idx as int));
        let (form, material_type, requires_image, image_role, image_type, dependency_mode) =
            infer_question_shape(subject, primary.as_str(), secondary.as_slice());
        let item = PracticeQuestionPlanItem {
            index: idx as u32 + 1,
            primary_point: primary,
            secondary_points: secondary,
            question_form: form,
            material_type,
            target_reference_ids: Vec::new(),
            avoid_topics: Vec::new(),
            requires_image,
            image_role,
            image_type,
            dependency_mode,
            image_spec: None,
        };
        assert(item@.target_reference_ids =~= Seq::<Seq<char>>::empty());
        assert(item@.avoid_topics =~= Seq::<Seq<char>>::empty());
        assert(item@ == heuristic_item(subject@, pts, idx as int));
        let ghost before = items@;
        items.push(item);
        assert forall|k: int| 0 <= k < idx + 1 implies #[trigger] item_views(items@)[k]
            == heuristic_item(subject@, pts, k) by {
            assert(item_views(items@)[k] == items@[k]@);
            if k < idx {
                assert(items@[k] == before[k]);
                assert(item_views(before)[k] == before[k]@);
            }
        }
        idx = idx + 1;
    }
    PracticePlan {
        subject: subject.to_owned(),
        grade_level: grade_level.to_owned(),
        count,
        rationale: "heuristic_fallback".to_owned(),
        items,
    }
}

/// The variant name of an image role, as `{:?}` prints it in prompts.
pub open spec fn role_variant_name(r: PracticeImageRole) -> Seq<char> {
    match r {
        PracticeImageRole::NoImage => "None"@,
        PracticeImageRole::Decorative => "Decorative"@,
        PracticeImageRole::Supportive => "Supportive"@,
        PracticeImageRole::AnswerBearing => "AnswerBearing"@,
        PracticeImageRole::SourceMaterial => "SourceMaterial"@,
    }
}

/// The variant name of a dependency mode, as `{:?}` prints it in prompts.
pub open spec fn mode_variant_name(m: PracticeDependencyMode) -> Seq<char> {
    match m {
        PracticeDependencyMode::TextOnly => "TextOnly"@,
        PracticeDependencyMode::RenderFromSpec => "RenderFromSpec"@,
        PracticeDependencyMode::JointPlanned => "JointPlanned"@,
        PracticeDependencyMode::ImageFirstFinalizeText => "ImageFirstFinalizeText"@,
    }
}

impl PracticeImageRole {
    /// The role's variant name, as prompts show it.
    pub fn variant_name(&self) -> (s: &'static str)
        ensures
            s@ == role_variant_name(*self),
    {
        match self {
            PracticeImageRole::NoImage => "None",
            PracticeImageRole::Decorative => "Decorative",
            PracticeImageRole::Supportive => "Supportive",
            PracticeImageRole::AnswerBearing => "AnswerBearing",
            PracticeImageRole::SourceMaterial => "SourceMaterial",
        }
    }
}

impl PracticeDependencyMode {
    /// The mode's variant name, as prompts show it.
    pub fn variant_name(&self) -> (s: &'static str)
        ensures
            s@ == mode_variant_name(*self),
    {
        match self {
            PracticeDependencyMode::TextOnly => "TextOnly",
            PracticeDependencyMode::RenderFromSpec => "RenderFromSpec",
            PracticeDependencyMode::JointPlanned => "JointPlanned",
            PracticeDependencyMode::ImageFirstFinalizeText => "ImageFirstFinalizeText",
        }
    }
}

} // verus!
