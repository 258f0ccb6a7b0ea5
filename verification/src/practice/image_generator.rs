//! Prompts for the images of practice questions.
use vstd::prelude::*;
use crate::analysis::parser::PracticeQuestion;
use crate::practice::planner::{PracticeImageSpec, PracticeImageType};
use crate::text::{
    append_joined, append_str, chars_of, copy_range, find, find_char_from, find_chars, find_from,
    join, string_from_chars, trim, trim_chars, views,
};

verus! {

/// How exactly an image must be drawn.
#[derive(Debug, Clone, Copy, PartialEq, Eq, Structural)]
pub enum PracticeImageClass {
    /// Diagrams, tables and charts, drawn strictly from the description.
    Precise,
    /// Scenes, drawn freely.
    Scene,
}

/// The class of an image of the given type.
pub open spec fn image_class(t: Option<PracticeImageType>) -> PracticeImageClass {
    match t {
        Some(PracticeImageType::GeometryDiagram) | Some(PracticeImageType::Table) | Some(
            PracticeImageType::BarChart,
        ) | Some(PracticeImageType::LineChart) | Some(PracticeImageType::PieChart) | Some(
            PracticeImageType::SequenceDiagram,
        ) | Some(PracticeImageType::MapOrLayout) => PracticeImageClass::Precise,
        _ => PracticeImageClass::Scene,
    }
}

/// Classifies the image of a question by its image type.
pub fn classify_image(question: &PracticeQuestion) -> (c: PracticeImageClass)
    ensures
        c == image_class(question.image_type),
{
    match question.image_type {
        Some(PracticeImageType::GeometryDiagram) | Some(PracticeImageType::Table) | Some(
            PracticeImageType::BarChart,
        ) | Some(PracticeImageType::LineChart) | Some(PracticeImageType::PieChart) | Some(
            PracticeImageType::SequenceDiagram,
        ) | Some(PracticeImageType::MapOrLayout) => PracticeImageClass::Precise,
        _ => PracticeImageClass::Scene,
    }
}

/// `o`'s text, or "未指定" when there is none.
pub open spec fn or_unspecified(o: Option<String>) -> Seq<char> {
    match o {
        Some(s) => s@,
        None => "未指定"@,
    }
}

fn append_or_unspecified(out: &mut Vec<char>, o: &Option<String>)
    ensures
        final(out)@ == old(out)@ + or_unspecified(*o),
{
    match o {
        Some(s) => append_str(out, s.as_str()),
        None => append_str(out, "未指定"),
    }
}

/// The image prompt for a question that has no image spec.
pub open spec fn fallback_prompt(q: PracticeQuestion) -> Seq<char> {
    "请为一道小学练习题生成配图。题型："@ + or_unspecified(q.question_form) + "；材料形态："@ + or_unspecified(q.material_type)
        + "；题目内容："@ + q.question@ + "。要求这是题目配图，不是照片，不是纸张扫描图；避免多余文字，避免练习本横线、墨渍、阴影、手写批注、水印、装饰背景，适合打印。"@
}

/// The image prompt for a question without an image spec: its form, material
/// and text, with the standing print constraints.
pub fn build_fallback_prompt(question: &PracticeQuestion) -> (r: String)
    ensures
        r@ == fallback_prompt(*question),
{
    let mut out: Vec<char> = Vec::new();
    append_str(&mut out, "请为一道小学练习题生成配图。题型：");
    append_or_unspecified(&mut out, &question.question_form);
    append_str(&mut out, "；材料形态：");
    append_or_unspecified(&mut out, &question.material_type);
    append_str(&mut out, "；题目内容：");
    append_str(&mut out, question.question.as_str());
    append_str(&mut out, "。要求这是题目配图，不是照片，不是纸张扫描图；避免多余文字，避免练习本横线、墨渍、阴影、手写批注、水印、装饰背景，适合打印。");
    string_from_chars(out.as_slice())
}

/// The marker that opens an image description embedded in a question.
pub open spec fn description_marker() -> Seq<char> {
    "[图片说明："@
}

/// The trimmed text between "[图片说明：" and the next `]`, when not empty.
pub open spec fn image_description(t: Seq<char>) -> Option<Seq<char>> {
    match find(t, description_marker()) {
        None => None,
        Some(i) => {
            let st = i + description_marker().len();
            match find_from(t, seq![']'], st) {
                None => None,
                Some(e) => if trim(t.subrange(st, e)).len() == 0 {
                    None
                } else {
                    Some(trim(t.subrange(st, e)))
                },
            }
        },
    }
}

/// The image description embedded in a question as "[图片说明：...]".
pub fn extract_image_description(question_text: &str) -> (r: Option<String>)
    ensures
        r matches Some(d) ==> image_description(question_text@) == Some(d@),
        r is None ==> image_description(question_text@) is None,
{
    let v = chars_of(question_text);
    let n = v.len();
    let marker = chars_of("[图片说明：");
    let i = match find_chars(v.as_slice(), marker.as_slice()) {
        Some(i) => i,
        None => return None,
    };
    assert(i + marker@.len() <= n);
    let st = i + marker.len();
    let e = match find_char_from(v.as_slice(), ']', st) {
        Some(e) => e,
        None => return None,
    };
    let inner = copy_range(v.as_slice(), st, e);
    let d = trim_chars(inner.as_slice());
    if d.len() == 0 {
        None
    } else {
        Some(string_from_chars(d.as_slice()))
    }
}

/// `t` without its first "[图片说明：...]" block.
pub open spec fn without_description(t: Seq<char>) -> Seq<char> {
    match find(t, description_marker()) {
        None => t,
        Some(i) => match find_from(t, seq![']'], i + description_marker().len()) {
            None => t,
            Some(e) => t.take(i) + t.skip(e + 1),
        },
    }
}

/// The question text with its embedded image description removed.
pub fn strip_image_description(question_text: &str) -> (r: String)
    ensures
        r@ == without_description(question_text@),
{
    let v = chars_of(question_text);
    let n = v.len();
    let marker = chars_of("[图片说明：");
    let i = match find_chars(v.as_slice(), marker.as_slice()) {
        Some(i) => i,
        None => return string_from_chars(v.as_slice()),
    };
    assert(i + marker@.len() <= n);
    let e = match find_char_from(v.as_slice(), ']', i + marker.len()) {
        Some(e) => e,
        None => return string_from_chars(v.as_slice()),
    };
    let mut out = copy_range(v.as_slice(), 0, i);
    let rest = copy_range(v.as_slice(), e + 1, n);
    out.extend_from_slice(rest.as_slice());
    assert(out@ =~= v@.take(i as int) + v@.skip(e + 1));
    string_from_chars(out.as_slice())
}

/// The required-elements line of an image prompt.
pub open spec fn elements_line(elements: Seq<Seq<char>>) -> Seq<char> {
    if elements.len() == 0 {
        Seq::empty()
    } else {
        "\n必须包含元素："@ + join(elements, "、"@) + "。"@
    }
}

/// The image prompt for a question with an image spec: precise images are
/// drawn strictly from the embedded description, scenes from the question.
pub open spec fn image_prompt(q: PracticeQuestion, sp: PracticeImageSpec) -> Seq<char> {
    let desc = image_description(q.question@);
    let planner = trim(sp.prompt@);
    let elements = elements_line(views(sp.elements@));
    match image_class(q.image_type) {
        PracticeImageClass::Precise => {
            let main = match desc {
                Some(d) => d,
                None => if planner.len() == 0 {
                    "未提供单独图片说明，请根据题目中的图片相关描述生成。"@
                } else {
                    planner
                },
            };
            let reference = if desc is Some || planner.len() == 0 {
                Seq::empty()
            } else {
                "\n附加参考："@ + planner
            };
            "请生成一张干净、简洁、用于小学数学/语文/英语题目的教学配图。\n这是题目配图，不是照片，不是手绘草稿，不是扫描页，不是练习本截图。\n必须严格围绕给定的图片说明生成，避免自由发挥。\n以“图片说明”为唯一主要绘制依据；题目正文仅作为辅助参考，planner 给出的泛化描述不要优先采用。\n不要添加图片说明中未提到的数字、符号、珠子状态、表格数据、刻度、箭头、标签或其它会误导学生的信息。\n不要出现墨渍、污点、折痕、纸张纹理、练习本横线、手写字、阴影、水印、边框装饰、卡通贴纸、背景杂物。\n整体风格：白底、清晰、教材插图风、可打印。\n图片说明："@ + main + "\n题目正文（仅供辅助理解，不是主要绘制依据）："@ + trim(without_description(q.question@)) + elements
                + reference
        },
        PracticeImageClass::Scene => {
            "请生成一张干净、简洁、用于小学题目的场景配图。\n这是题目配图，不是照片，不是扫描页，不要出现练习本横线、墨渍、手写批注、水印、背景杂物。\n图片应与题目一致，但不要添加多余文字。\n题目内容："@ + q.question@ + "\n图像要求："@ + (if planner.len() == 0 {
                "未指定"@
            } else {
                planner
            }) + elements
        },
    }
}

/// The final image prompt for a question with an image spec.
pub fn build_image_prompt(question: &PracticeQuestion, image_spec: &PracticeImageSpec) -> (r:
    String)
    ensures
        r@ == image_prompt(*question, *image_spec),
{
    let class = classify_image(question);
    let image_description = extract_image_description(question.question.as_str());
    let pv = chars_of(image_spec.prompt.as_str());
    let planner_text = trim_chars(pv.as_slice());
    let mut elements: Vec<char> = Vec::new();
    if image_spec.elements.len() > 0 {
        append_str(&mut elements, "\n必须包含元素：");
        append_joined(&mut elements, &image_spec.elements, "、");
        append_str(&mut elements, "。");
    }
    assert(elements@ == elements_line(views(image_spec.elements@)));
    let mut out: Vec<char> = Vec::new();
    match class {
        PracticeImageClass::Precise => {
            append_str(&mut out, "请生成一张干净、简洁、用于小学数学/语文/英语题目的教学配图。\n这是题目配图，不是照片，不是手绘草稿，不是扫描页，不是练习本截图。\n必须严格围绕给定的图片说明生成，避免自由发挥。\n以“图片说明”为唯一主要绘制依据；题目正文仅作为辅助参考，planner 给出的泛化描述不要优先采用。\n不要添加图片说明中未提到的数字、符号、珠子状态、表格数据、刻度、箭头、标签或其它会误导学生的信息。\n不要出现墨渍、污点、折痕、纸张纹理、练习本横线、手写字、阴影、水印、边框装饰、卡通贴纸、背景杂物。\n整体风格：白底、清晰、教材插图风、可打印。\n图片说明：");
            match &image_description {
                Some(d) => append_str(&mut out, d.as_str()),
                None => {
                    if planner_text.len() == 0 {
                        append_str(&mut out, "未提供单独图片说明，请根据题目中的图片相关描述生成。");
                    } else {
                        out.extend_from_slice(planner_text.as_slice());
                    }
                },
            }
            append_str(&mut out, "\n题目正文（仅供辅助理解，不是主要绘制依据）：");
            let stripped = strip_image_description(question.question.as_str());
            let sv = chars_of(stripped.as_str());
            let st = trim_chars(sv.as_slice());
            out.extend_from_slice(st.as_slice());
            out.extend_from_slice(elements.as_slice());
            if !(image_description.is_some() || planner_text.len() == 0) {
                append_str(&mut out, "\n附加参考：");
                out.extend_from_slice(planner_text.as_slice());
            }
        },
        PracticeImageClass::Scene => {
            append_str(&mut out, "请生成一张干净、简洁、用于小学题目的场景配图。\n这是题目配图，不是照片，不是扫描页，不要出现练习本横线、墨渍、手写批注、水印、背景杂物。\n图片应与题目一致，但不要添加多余文字。\n题目内容：");
            append_str(&mut out, question.question.as_str());
            append_str(&mut out, "\n图像要求：");
            if planner_text.len() == 0 {
                append_str(&mut out, "未指定");
            } else {
                out.extend_from_slice(planner_text.as_slice());
            }
            out.extend_from_slice(elements.as_slice());
        },
    }
    string_from_chars(out.as_slice())
}

/// The prompt of the image a question needs: none when it needs no image,
/// the fallback prompt when it has no image spec, else the spec's prompt.
pub open spec fn question_image_prompt(q: PracticeQuestion) -> Option<Seq<char>> {
    if !q.requires_image {
        None
    } else {
        match q.image_spec {
            Some(sp) => Some(image_prompt(q, sp)),
            None => Some(fallback_prompt(q)),
        }
    }
}

/// Decides whether a question gets an image, and with which prompt.
pub fn image_prompt_for_question(question: &PracticeQuestion) -> (r: Option<String>)
    ensures
        match r {
            Some(p) => question_image_prompt(*question) == Some(p@),
            None => question_image_prompt(*question) is None,
        },
{
    if !question.requires_image {
        return None;
    }
    match &question.image_spec {
        Some(spec) => Some(build_image_prompt(question, spec)),
        None => Some(build_fallback_prompt(question)),
    }
}

} // verus!
