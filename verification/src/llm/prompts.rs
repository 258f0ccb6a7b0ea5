//! The prompts sent to the models: each is its fixed text around the values
//! of the request.
use vstd::prelude::*;
use crate::analysis::parser::PracticeQuestion;
use crate::config::{opt_view, DefaultsConfig};
use crate::db::models::{AnalysisRequest, Summary};
use crate::llm::client::{message_views, ChatMessage, MessageModel, PartModel};
use crate::practice::planner::{
    mode_variant_name, role_variant_name, PracticeQuestionPlanItem,
};
use crate::text::{
    append_decimal, append_joined, append_str, chars_of, decimal, join, string_from_chars, views,
};

verus! {

/// The text of this prompt part, around its arguments.
pub open spec fn analysis_system_text(teacher: Seq<char>, label: Seq<char>, correction: Seq<char>, grade: Seq<char>, subject_line: Seq<char>) -> Seq<char> {
    "你是一个小学老师，请按照给你的题目，分析学生做错的题目。\n\n题目颜色定义：给你的题目，都是经过老师批改的。其中：\n- "@ + teacher + "："@ + label + "的内容\n- "@ + correction + "：孩子订正的内容\n- 其他颜色：孩子做题使用的笔，可能包含铅笔、黑色钢笔等。\n\n注意：以上为默认颜色定义，如果让你分析的时候有特别说明，必须以当此的要求为准，特别是学生笔迹的颜色，可能会使用不同的笔作答。\n\n错误分析要求：\n\n1. 识别原题：要求获取完整原题内容，原题内容以markdown格式给出，去掉任何学生做题和老师批改内容，确保原题可以重新用来打印。\n2. 将题目进行归类，按照题目考察知识点和给定的年级/科目范围，给出题目考查点标签，可以是多个。\n3. 分析错误原因：按照题目科目，分析错误的原因，以及改进建议。改进建议需要能够执行的。\n\n输出要求：\n\n原题部分采用markdown格式输出，必须包含完整题目和原始题目结构，包括但不限于题目公共题干（例如阅读理解的文章、大题开始的要求）、配图等重新生成题目需要的内容。\n对于配图，如果无法用markdown表示，请给出配图在原图中的坐标，要求格式是 [[x1, y1, x2, y2], ...]，每个子数组是一个配图的矩形区域坐标，分别是图片的左上角和右下角坐标。\n\n其他输出采用JSON格式结构化输出，包含以下key：\n- subject：科目，格式为字符串，例如语文、数学等。如果输入的时候有说明，以输入为准，否则按照题目来进行判断，所有科目都是小学阶段可能安排的。\n- classification：题目分类，格式为字符串数组，包括考查知识点，例如语文可能有\"字词书写\"、\"拼音运用\"、\"仿写句子\"等，数学可能有\"带余数除法\"、\"钟表\"、\"算盘\"等。\n- reason：错误原因，格式为字符串\n- suggestions：改进建议，格式为字符串\n\n年级："@ + grade + subject_line
}

fn fill_analysis_system_text(teacher: &str, label: &str, correction: &str, grade: &str, subject_line: &str) -> (r: String)
    ensures
        r@ == analysis_system_text(teacher@, label@, correction@, grade@, subject_line@),
{
    let mut out: Vec<char> = Vec::new();
    append_str(&mut out, "你是一个小学老师，请按照给你的题目，分析学生做错的题目。\n\n题目颜色定义：给你的题目，都是经过老师批改的。其中：\n- ");
    append_str(&mut out, teacher);
    append_str(&mut out, "：");
    append_str(&mut out, label);
    append_str(&mut out, "的内容\n- ");
    append_str(&mut out, correction);
    append_str(&mut out, "：孩子订正的内容\n- 其他颜色：孩子做题使用的笔，可能包含铅笔、黑色钢笔等。\n\n注意：以上为默认颜色定义，如果让你分析的时候有特别说明，必须以当此的要求为准，特别是学生笔迹的颜色，可能会使用不同的笔作答。\n\n错误分析要求：\n\n1. 识别原题：要求获取完整原题内容，原题内容以markdown格式给出，去掉任何学生做题和老师批改内容，确保原题可以重新用来打印。\n2. 将题目进行归类，按照题目考察知识点和给定的年级/科目范围，给出题目考查点标签，可以是多个。\n3. 分析错误原因：按照题目科目，分析错误的原因，以及改进建议。改进建议需要能够执行的。\n\n输出要求：\n\n原题部分采用markdown格式输出，必须包含完整题目和原始题目结构，包括但不限于题目公共题干（例如阅读理解的文章、大题开始的要求）、配图等重新生成题目需要的内容。\n对于配图，如果无法用markdown表示，请给出配图在原图中的坐标，要求格式是 [[x1, y1, x2, y2], ...]，每个子数组是一个配图的矩形区域坐标，分别是图片的左上角和右下角坐标。\n\n其他输出采用JSON格式结构化输出，包含以下key：\n- subject：科目，格式为字符串，例如语文、数学等。如果输入的时候有说明，以输入为准，否则按照题目来进行判断，所有科目都是小学阶段可能安排的。\n- classification：题目分类，格式为字符串数组，包括考查知识点，例如语文可能有\"字词书写\"、\"拼音运用\"、\"仿写句子\"等，数学可能有\"带余数除法\"、\"钟表\"、\"算盘\"等。\n- reason：错误原因，格式为字符串\n- suggestions：改进建议，格式为字符串\n\n年级：");
    append_str(&mut out, grade);
    append_str(&mut out, subject_line);
    string_from_chars(out.as_slice())
}

/// The text of this prompt part, around its arguments.
pub open spec fn subject_line_text(subject: Seq<char>) -> Seq<char> {
    "\n科目："@ + subject
}

fn fill_subject_line_text(subject: &str) -> (r: String)
    ensures
        r@ == subject_line_text(subject@),
{
    let mut out: Vec<char> = Vec::new();
    append_str(&mut out, "\n科目：");
    append_str(&mut out, subject);
    string_from_chars(out.as_slice())
}

/// The text of this prompt part, around its arguments.
pub open spec fn summary_system_text(subject: Seq<char>) -> Seq<char> {
    "你是一个经验丰富的小学"@ + subject + "教师，请根据以下一段时间内的学生错题记录，进行阶段性总结。\n\n每条错题包含结构化字段：知识点、题型、难度、原题、学生作答、错误类型/子类、根因编码、错误原因、改进建议。\n请优先基于每题的题型、难度、错误类型、根因编码和学生作答进行归纳，而非仅凭自由文本推测。\n\n要求：\n1. 归纳共性错误原因（按频次排序，优先按错误类型和根因编码分类）\n2. 总结共性改进方向\n3. 提炼薄弱知识点列表\n4. 给出下一阶段的学习建议\n\n输出严格采用JSON格式，包含以下key：\n- common_reasons: 字符串，共性错误原因总结\n- common_suggestions: 字符串，共性改进建议\n- weak_points: 字符串数组，薄弱知识点列表\n- detail: 字符串，详细分析内容"@
}

fn fill_summary_system_text(subject: &str) -> (r: String)
    ensures
        r@ == summary_system_text(subject@),
{
    let mut out: Vec<char> = Vec::new();
    append_str(&mut out, "你是一个经验丰富的小学");
    append_str(&mut out, subject);
    append_str(&mut out, "教师，请根据以下一段时间内的学生错题记录，进行阶段性总结。\n\n每条错题包含结构化字段：知识点、题型、难度、原题、学生作答、错误类型/子类、根因编码、错误原因、改进建议。\n请优先基于每题的题型、难度、错误类型、根因编码和学生作答进行归纳，而非仅凭自由文本推测。\n\n要求：\n1. 归纳共性错误原因（按频次排序，优先按错误类型和根因编码分类）\n2. 总结共性改进方向\n3. 提炼薄弱知识点列表\n4. 给出下一阶段的学习建议\n\n输出严格采用JSON格式，包含以下key：\n- common_reasons: 字符串，共性错误原因总结\n- common_suggestions: 字符串，共性改进建议\n- weak_points: 字符串数组，薄弱知识点列表\n- detail: 字符串，详细分析内容");
    string_from_chars(out.as_slice())
}

/// The text of this prompt part, around its arguments.
pub open spec fn summary_user_text(subject: Seq<char>, grade: Seq<char>, records: Seq<char>) -> Seq<char> {
    "科目："@ + subject + "\n年级："@ + grade + "\n\n错题记录：\n"@ + records
}

fn fill_summary_user_text(subject: &str, grade: &str, records: &str) -> (r: String)
    ensures
        r@ == summary_user_text(subject@, grade@, records@),
{
    let mut out: Vec<char> = Vec::new();
    append_str(&mut out, "科目：");
    append_str(&mut out, subject);
    append_str(&mut out, "\n年级：");
    append_str(&mut out, grade);
    append_str(&mut out, "\n\n错题记录：\n");
    append_str(&mut out, records);
    string_from_chars(out.as_slice())
}

/// The text of this prompt part, around its arguments.
pub open spec fn practice_system_text(subject: Seq<char>, grade: Seq<char>, count: Seq<char>) -> Seq<char> {
    "你是一个经验丰富的小学"@ + subject + "教师。请根据学生的薄弱知识点和参考题目风格，生成新的巩固练习题。\n\n内容要求：\n1. 题目必须覆盖给定的薄弱知识点\n2. 题目风格参考给出的原题，但不要重复原题\n3. 题目适合"@ + grade + "学生\n4. 每道题都必须包含题目内容、参考答案、知识点\n\n输出格式要求（非常重要）：\n1. 只输出 JSON，不要输出任何解释、说明、前后缀、标题、备注\n2. 不要使用 markdown 代码块，不要输出 ```json\n3. 输出必须是一个 JSON 对象，包含一个 \"questions\" 数组\n4. 第一个字符必须是 {，最后一个字符必须是 }\n5. \"questions\" 数组必须且只能包含 "@ + count + " 个对象，不能多也不能少\n6. 每个对象必须且只能包含以下 3 个字段：\n   - question: 字符串，题目内容，允许使用 markdown，但必须作为 JSON 字符串输出\n   - answer: 字符串，参考答案\n   - knowledge_points: 字符串数组，表示该题考查的知识点\n7. 所有字段名必须完全一致，不能增加其他字段，不能省略字段\n8. 如果 question 中需要换行，请使用 \\n；如果内容中出现英文双引号，必须正确转义为 \\\"\n9. knowledge_points 必须是 JSON 字符串数组，即使只有 1 个知识点也必须输出数组\n10. 不要输出任何 emoji、表情符号、贴纸风格符号或装饰性 pictograph，不要使用 ✅📚⭐🎯😀 等字符\n\n输出示例：\n{\n  \"questions\": [\n    {\n      \"question\": \"1. 计算：12 ÷ 3 = ?\",\n      \"answer\": \"4\",\n      \"knowledge_points\": [\"表内除法\"]\n    }\n  ]\n}"@
}

fn fill_practice_system_text(subject: &str, grade: &str, count: &str) -> (r: String)
    ensures
        r@ == practice_system_text(subject@, grade@, count@),
{
    let mut out: Vec<char> = Vec::new();
    append_str(&mut out, "你是一个经验丰富的小学");
    append_str(&mut out, subject);
    append_str(&mut out, "教师。请根据学生的薄弱知识点和参考题目风格，生成新的巩固练习题。\n\n内容要求：\n1. 题目必须覆盖给定的薄弱知识点\n2. 题目风格参考给出的原题，但不要重复原题\n3. 题目适合");
    append_str(&mut out, grade);
    append_str(&mut out, "学生\n4. 每道题都必须包含题目内容、参考答案、知识点\n\n输出格式要求（非常重要）：\n1. 只输出 JSON，不要输出任何解释、说明、前后缀、标题、备注\n2. 不要使用 markdown 代码块，不要输出 ```json\n3. 输出必须是一个 JSON 对象，包含一个 \"questions\" 数组\n4. 第一个字符必须是 {，最后一个字符必须是 }\n5. \"questions\" 数组必须且只能包含 ");
    append_str(&mut out, count);
    append_str(&mut out, " 个对象，不能多也不能少\n6. 每个对象必须且只能包含以下 3 个字段：\n   - question: 字符串，题目内容，允许使用 markdown，但必须作为 JSON 字符串输出\n   - answer: 字符串，参考答案\n   - knowledge_points: 字符串数组，表示该题考查的知识点\n7. 所有字段名必须完全一致，不能增加其他字段，不能省略字段\n8. 如果 question 中需要换行，请使用 \\n；如果内容中出现英文双引号，必须正确转义为 \\\"\n9. knowledge_points 必须是 JSON 字符串数组，即使只有 1 个知识点也必须输出数组\n10. 不要输出任何 emoji、表情符号、贴纸风格符号或装饰性 pictograph，不要使用 ✅📚⭐🎯😀 等字符\n\n输出示例：\n{\n  \"questions\": [\n    {\n      \"question\": \"1. 计算：12 ÷ 3 = ?\",\n      \"answer\": \"4\",\n      \"knowledge_points\": [\"表内除法\"]\n    }\n  ]\n}");
    string_from_chars(out.as_slice())
}

/// The text of this prompt part, around its arguments.
pub open spec fn extra_requirements_text(requirements: Seq<char>) -> Seq<char> {
    "\n\n额外要求：\n"@ + requirements + "\n\n注意：额外要求不能改变题目数量、JSON 输出格式和必需字段。"@
}

fn fill_extra_requirements_text(requirements: &str) -> (r: String)
    ensures
        r@ == extra_requirements_text(requirements@),
{
    let mut out: Vec<char> = Vec::new();
    append_str(&mut out, "\n\n额外要求：\n");
    append_str(&mut out, requirements);
    append_str(&mut out, "\n\n注意：额外要求不能改变题目数量、JSON 输出格式和必需字段。");
    string_from_chars(out.as_slice())
}

/// The text of this prompt part, around its arguments.
pub open spec fn practice_user_text(points: Seq<char>, references: Seq<char>, extra: Seq<char>, count: Seq<char>, count_again: Seq<char>) -> Seq<char> {
    "薄弱知识点："@ + points + "\n\n参考题目风格：\n"@ + references + extra + "\n\n请生成 "@ + count + " 道巩固练习题。请再次确认：最终回复必须是包含 \"questions\" 数组的合法 JSON 对象，且数组长度必须恰好为 "@ + count_again + "。"@
}

fn fill_practice_user_text(points: &str, references: &str, extra: &str, count: &str, count_again: &str) -> (r: String)
    ensures
        r@ == practice_user_text(points@, references@, extra@, count@, count_again@),
{
    let mut out: Vec<char> = Vec::new();
    append_str(&mut out, "薄弱知识点：");
    append_str(&mut out, points);
    append_str(&mut out, "\n\n参考题目风格：\n");
    append_str(&mut out, references);
    append_str(&mut out, extra);
    append_str(&mut out, "\n\n请生成 ");
    append_str(&mut out, count);
    append_str(&mut out, " 道巩固练习题。请再次确认：最终回复必须是包含 \"questions\" 数组的合法 JSON 对象，且数组长度必须恰好为 ");
    append_str(&mut out, count_again);
    append_str(&mut out, "。");
    string_from_chars(out.as_slice())
}

/// The text of this prompt part, around its arguments.
pub open spec fn plan_system_text(subject: Seq<char>, count: Seq<char>, count_again: Seq<char>) -> Seq<char> {
    "你是一个小学"@ + subject + "练习题规划专家。你的任务不是直接出题，而是先为巩固练习生成一个出题规划。\n\n要求：\n1. 结合薄弱知识点、参考题风格、额外要求，规划共 "@ + count + " 道题\n2. 每题默认 1 个主知识点；只有自然兼容时才允许最多 1 个辅知识点\n3. 不要把多个不相关知识点硬塞进同一题\n4. 需要判断题型、材料形态，以及是否需要图片\n5. 数学几何图/统计图/表格题优先标记为 requires_image=true\n6. 看图写话、看图表达这类 source-material 场景要明确依赖图片\n7. 所有枚举字段必须使用固定英文候选值，禁止输出中文解释句\n8. 对计数器、算盘、表格、统计图、几何图、数轴、路线图这类“答题依赖精确数据”的图片，允许规划 requires_image=true，但不要假设自由生图一定可用；image_spec 更像结构说明，不是最终自由生图 prompt\n9. 你可以先把图片理解成两大类：\n   - 精确图：题目依赖图中的精确数据/位置/符号（如计数器、算盘、表格、统计图、几何图、路线图）\n   - 场景图：主要提供情境或辅助理解，不承载唯一答案数据\n\n输出必须是合法 JSON 对象，包含：\n- subject\n- grade_level\n- count\n- rationale\n- items: 长度恰好为 "@ + count_again + " 的数组\n\n每个 item 包含：\n- index\n- primary_point\n- secondary_points\n- question_form\n- material_type\n- target_reference_ids\n- avoid_topics\n- requires_image\n- image_role\n- image_type\n- dependency_mode\n- image_spec（可为空）\n\n严格枚举约束（只能从以下候选值中选择，不能改写、不能翻译、不能补充解释）：\n- image_role: [\"none\", \"decorative\", \"supportive\", \"answer_bearing\", \"source_material\"]\n- image_type: [\"none\", \"geometry_diagram\", \"table\", \"bar_chart\", \"line_chart\", \"pie_chart\", \"sequence_diagram\", \"scene_illustration\", \"picture_story\", \"map_or_layout\"]\n- dependency_mode: [\"text_only\", \"render_from_spec\", \"joint_planned\", \"image_first_finalize_text\"]\n\n额外硬性要求：\n1. image_role / image_type / dependency_mode 这三个字段必须是单个英文字符串，不能是句子，不能带中文，不能带冒号，不能写成“必要：xxx”这类格式\n2. image_spec 只能是 null、对象或简短字符串 prompt；如果是对象，只能包含 prompt、elements、fallback_allowed\n3. question_form 和 material_type 可以用中文，但 image_role / image_type / dependency_mode 不可以用中文\n4. 若 requires_image=false，则建议 image_role=\"none\"、image_type=\"none\"、dependency_mode=\"text_only\"\n5. 对计数器/算盘/表格/统计图/几何图等精确图，image_spec 应尽量描述结构元素，不要把它写成依赖模型自由发挥的长文案\n6. 对精确图，image_spec 应写“必须出现哪些结构元素”和“不要出现哪些额外数据/符号”；对场景图，image_spec 可以更偏场景描述\n\n输出示例：\n{\n  \"subject\": \"数学\",\n  \"grade_level\": \"二年级\",\n  \"count\": 2,\n  \"rationale\": \"按薄弱知识点分配题型\",\n  \"items\": [\n    {\n      \"index\": 1,\n      \"primary_point\": \"万以内数的认识与读写\",\n      \"secondary_points\": [],\n      \"question_form\": \"选择题\",\n      \"material_type\": \"图文结合\",\n      \"target_reference_ids\": [\"R4\"],\n      \"avoid_topics\": [],\n      \"requires_image\": true,\n      \"image_role\": \"source_material\",\n      \"image_type\": \"geometry_diagram\",\n      \"dependency_mode\": \"render_from_spec\",\n      \"image_spec\": {\n        \"prompt\": \"一个计数器图示，展示四位数数位状态\",\n        \"elements\": [\"计数器\", \"千位\", \"百位\", \"十位\", \"个位\"],\n        \"fallback_allowed\": true\n      }\n    },\n    {\n      \"index\": 2,\n      \"primary_point\": \"时间相关概念\",\n      \"secondary_points\": [],\n      \"question_form\": \"解答题\",\n      \"material_type\": \"长题干文字\",\n      \"target_reference_ids\": [\"R2\"],\n      \"avoid_topics\": [],\n      \"requires_image\": false,\n      \"image_role\": \"none\",\n      \"image_type\": \"none\",\n      \"dependency_mode\": \"text_only\",\n      \"image_spec\": null\n    }\n  ]\n}"@
}

fn fill_plan_system_text(subject: &str, count: &str, count_again: &str) -> (r: String)
    ensures
        r@ == plan_system_text(subject@, count@, count_again@),
{
    let mut out: Vec<char> = Vec::new();
    append_str(&mut out, "你是一个小学");
    append_str(&mut out, subject);
    append_str(&mut out, "练习题规划专家。你的任务不是直接出题，而是先为巩固练习生成一个出题规划。\n\n要求：\n1. 结合薄弱知识点、参考题风格、额外要求，规划共 ");
    append_str(&mut out, count);
    append_str(&mut out, " 道题\n2. 每题默认 1 个主知识点；只有自然兼容时才允许最多 1 个辅知识点\n3. 不要把多个不相关知识点硬塞进同一题\n4. 需要判断题型、材料形态，以及是否需要图片\n5. 数学几何图/统计图/表格题优先标记为 requires_image=true\n6. 看图写话、看图表达这类 source-material 场景要明确依赖图片\n7. 所有枚举字段必须使用固定英文候选值，禁止输出中文解释句\n8. 对计数器、算盘、表格、统计图、几何图、数轴、路线图这类“答题依赖精确数据”的图片，允许规划 requires_image=true，但不要假设自由生图一定可用；image_spec 更像结构说明，不是最终自由生图 prompt\n9. 你可以先把图片理解成两大类：\n   - 精确图：题目依赖图中的精确数据/位置/符号（如计数器、算盘、表格、统计图、几何图、路线图）\n   - 场景图：主要提供情境或辅助理解，不承载唯一答案数据\n\n输出必须是合法 JSON 对象，包含：\n- subject\n- grade_level\n- count\n- rationale\n- items: 长度恰好为 ");
    append_str(&mut out, count_again);
    append_str(&mut out, " 的数组\n\n每个 item 包含：\n- index\n- primary_point\n- secondary_points\n- question_form\n- material_type\n- target_reference_ids\n- avoid_topics\n- requires_image\n- image_role\n- image_type\n- dependency_mode\n- image_spec（可为空）\n\n严格枚举约束（只能从以下候选值中选择，不能改写、不能翻译、不能补充解释）：\n- image_role: [\"none\", \"decorative\", \"supportive\", \"answer_bearing\", \"source_material\"]\n- image_type: [\"none\", \"geometry_diagram\", \"table\", \"bar_chart\", \"line_chart\", \"pie_chart\", \"sequence_diagram\", \"scene_illustration\", \"picture_story\", \"map_or_layout\"]\n- dependency_mode: [\"text_only\", \"render_from_spec\", \"joint_planned\", \"image_first_finalize_text\"]\n\n额外硬性要求：\n1. image_role / image_type / dependency_mode 这三个字段必须是单个英文字符串，不能是句子，不能带中文，不能带冒号，不能写成“必要：xxx”这类格式\n2. image_spec 只能是 null、对象或简短字符串 prompt；如果是对象，只能包含 prompt、elements、fallback_allowed\n3. question_form 和 material_type 可以用中文，但 image_role / image_type / dependency_mode 不可以用中文\n4. 若 requires_image=false，则建议 image_role=\"none\"、image_type=\"none\"、dependency_mode=\"text_only\"\n5. 对计数器/算盘/表格/统计图/几何图等精确图，image_spec 应尽量描述结构元素，不要把它写成依赖模型自由发挥的长文案\n6. 对精确图，image_spec 应写“必须出现哪些结构元素”和“不要出现哪些额外数据/符号”；对场景图，image_spec 可以更偏场景描述\n\n输出示例：\n{\n  \"subject\": \"数学\",\n  \"grade_level\": \"二年级\",\n  \"count\": 2,\n  \"rationale\": \"按薄弱知识点分配题型\",\n  \"items\": [\n    {\n      \"index\": 1,\n      \"primary_point\": \"万以内数的认识与读写\",\n      \"secondary_points\": [],\n      \"question_form\": \"选择题\",\n      \"material_type\": \"图文结合\",\n      \"target_reference_ids\": [\"R4\"],\n      \"avoid_topics\": [],\n      \"requires_image\": true,\n      \"image_role\": \"source_material\",\n      \"image_type\": \"geometry_diagram\",\n      \"dependency_mode\": \"render_from_spec\",\n      \"image_spec\": {\n        \"prompt\": \"一个计数器图示，展示四位数数位状态\",\n        \"elements\": [\"计数器\", \"千位\", \"百位\", \"十位\", \"个位\"],\n        \"fallback_allowed\": true\n      }\n    },\n    {\n      \"index\": 2,\n      \"primary_point\": \"时间相关概念\",\n      \"secondary_points\": [],\n      \"question_form\": \"解答题\",\n      \"material_type\": \"长题干文字\",\n      \"target_reference_ids\": [\"R2\"],\n      \"avoid_topics\": [],\n      \"requires_image\": false,\n      \"image_role\": \"none\",\n      \"image_type\": \"none\",\n      \"dependency_mode\": \"text_only\",\n      \"image_spec\": null\n    }\n  ]\n}");
    string_from_chars(out.as_slice())
}

/// The text of this prompt part, around its arguments.
pub open spec fn plan_reference_text(number: Seq<char>, item: Seq<char>) -> Seq<char> {
    "R"@ + number + ": "@ + item
}

fn fill_plan_reference_text(number: &str, item: &str) -> (r: String)
    ensures
        r@ == plan_reference_text(number@, item@),
{
    let mut out: Vec<char> = Vec::new();
    append_str(&mut out, "R");
    append_str(&mut out, number);
    append_str(&mut out, ": ");
    append_str(&mut out, item);
    string_from_chars(out.as_slice())
}

/// The text of this prompt part, around its arguments.
pub open spec fn plan_existing_text(number: Seq<char>, points: Seq<char>, head: Seq<char>) -> Seq<char> {
    number + ". "@ + points + " / "@ + head
}

fn fill_plan_existing_text(number: &str, points: &str, head: &str) -> (r: String)
    ensures
        r@ == plan_existing_text(number@, points@, head@),
{
    let mut out: Vec<char> = Vec::new();
    append_str(&mut out, number);
    append_str(&mut out, ". ");
    append_str(&mut out, points);
    append_str(&mut out, " / ");
    append_str(&mut out, head);
    string_from_chars(out.as_slice())
}

/// The text of this prompt part, around its arguments.
pub open spec fn plan_extra_text(requirements: Seq<char>) -> Seq<char> {
    "\n额外要求："@ + requirements
}

fn fill_plan_extra_text(requirements: &str) -> (r: String)
    ensures
        r@ == plan_extra_text(requirements@),
{
    let mut out: Vec<char> = Vec::new();
    append_str(&mut out, "\n额外要求：");
    append_str(&mut out, requirements);
    string_from_chars(out.as_slice())
}

/// The text of this prompt part, around its arguments.
pub open spec fn plan_user_text(subject: Seq<char>, grade: Seq<char>, count: Seq<char>, points: Seq<char>, references: Seq<char>, existing: Seq<char>, extra: Seq<char>) -> Seq<char> {
    "科目："@ + subject + "\n年级："@ + grade + "\n目标题数："@ + count + "\n薄弱知识点："@ + points + "\n\n参考题：\n"@ + references + "\n\n已生成题目（避免重复）：\n"@ + existing + extra + "\n\n请先输出出题规划 JSON。"@
}

fn fill_plan_user_text(subject: &str, grade: &str, count: &str, points: &str, references: &str, existing: &str, extra: &str) -> (r: String)
    ensures
        r@ == plan_user_text(subject@, grade@, count@, points@, references@, existing@, extra@),
{
    let mut out: Vec<char> = Vec::new();
    append_str(&mut out, "科目：");
    append_str(&mut out, subject);
    append_str(&mut out, "\n年级：");
    append_str(&mut out, grade);
    append_str(&mut out, "\n目标题数：");
    append_str(&mut out, count);
    append_str(&mut out, "\n薄弱知识点：");
    append_str(&mut out, points);
    append_str(&mut out, "\n\n参考题：\n");
    append_str(&mut out, references);
    append_str(&mut out, "\n\n已生成题目（避免重复）：\n");
    append_str(&mut out, existing);
    append_str(&mut out, extra);
    append_str(&mut out, "\n\n请先输出出题规划 JSON。");
    string_from_chars(out.as_slice())
}

/// The text of this prompt part, around its arguments.
pub open spec fn batch_system_text(subject: Seq<char>, grade: Seq<char>, form: Seq<char>, material: Seq<char>, needs_image: Seq<char>, role: Seq<char>, mode: Seq<char>, count: Seq<char>) -> Seq<char> {
    "你是一个经验丰富的小学"@ + subject + "教师。现在需要按指定知识点生成新的巩固练习题。\n\n内容要求：\n1. 本批题目只需要覆盖指定的目标知识点，不要为了“覆盖更多点”强行混入未指定知识点\n2. 题目风格参考给出的原题，但不要重复原题\n3. 题目适合"@ + grade + "学生\n4. 每道题都必须包含题目内容、参考答案、知识点\n5. 题目自然、真实、像正常教辅题，不要生硬拼接多个知识点\n6. 如果目标知识点有 2 个，只有在同一题里自然融合时才可同时覆盖；否则以第 1 个为主\n7. 本题规划题型："@ + form + "；材料形态："@ + material + "\n8. 是否需要图片："@ + needs_image + "；图片作用："@ + role + "；依赖模式："@ + mode + "\n\n输出格式要求（非常重要）：\n1. 只输出 JSON，不要输出任何解释、说明、前后缀、标题、备注\n2. 不要使用 markdown 代码块，不要输出 ```json\n3. 输出必须是一个 JSON 对象，包含一个 \\\"questions\\\" 数组\n4. 第一个字符必须是 {，最后一个字符必须是 }\n5. \\\"questions\\\" 数组必须且只能包含 "@ + count + " 个对象，不能多也不能少\n6. 每个对象必须且只能包含以下 3 个字段：question、answer、knowledge_points\n7. question 与 answer 中如需换行请使用 \\n；双引号必须转义为 \\\"\n8. knowledge_points 必须是字符串数组，且只包含本批目标知识点中实际使用到的点\n9. 如果题目或答案中需要表格，必须使用标准 markdown 表格：第一行表头，第二行必须是 `| --- | --- |` 这种分隔行，后面再写数据行\n10. 表格单元格内部禁止换行，禁止使用 `│` 这类竖线字符代替 `|`，禁止输出不完整表格\n11. 不要输出任何 emoji、表情符号、贴纸风格符号或装饰性 pictograph"@
}

fn fill_batch_system_text(subject: &str, grade: &str, form: &str, material: &str, needs_image: &str, role: &str, mode: &str, count: &str) -> (r: String)
    ensures
        r@ == batch_system_text(subject@, grade@, form@, material@, needs_image@, role@, mode@, count@),
{
    let mut out: Vec<char> = Vec::new();
    append_str(&mut out, "你是一个经验丰富的小学");
    append_str(&mut out, subject);
    append_str(&mut out, "教师。现在需要按指定知识点生成新的巩固练习题。\n\n内容要求：\n1. 本批题目只需要覆盖指定的目标知识点，不要为了“覆盖更多点”强行混入未指定知识点\n2. 题目风格参考给出的原题，但不要重复原题\n3. 题目适合");
    append_str(&mut out, grade);
    append_str(&mut out, "学生\n4. 每道题都必须包含题目内容、参考答案、知识点\n5. 题目自然、真实、像正常教辅题，不要生硬拼接多个知识点\n6. 如果目标知识点有 2 个，只有在同一题里自然融合时才可同时覆盖；否则以第 1 个为主\n7. 本题规划题型：");
    append_str(&mut out, form);
    append_str(&mut out, "；材料形态：");
    append_str(&mut out, material);
    append_str(&mut out, "\n8. 是否需要图片：");
    append_str(&mut out, needs_image);
    append_str(&mut out, "；图片作用：");
    append_str(&mut out, role);
    append_str(&mut out, "；依赖模式：");
    append_str(&mut out, mode);
    append_str(&mut out, "\n\n输出格式要求（非常重要）：\n1. 只输出 JSON，不要输出任何解释、说明、前后缀、标题、备注\n2. 不要使用 markdown 代码块，不要输出 ```json\n3. 输出必须是一个 JSON 对象，包含一个 \\\"questions\\\" 数组\n4. 第一个字符必须是 {，最后一个字符必须是 }\n5. \\\"questions\\\" 数组必须且只能包含 ");
    append_str(&mut out, count);
    append_str(&mut out, " 个对象，不能多也不能少\n6. 每个对象必须且只能包含以下 3 个字段：question、answer、knowledge_points\n7. question 与 answer 中如需换行请使用 \\n；双引号必须转义为 \\\"\n8. knowledge_points 必须是字符串数组，且只包含本批目标知识点中实际使用到的点\n9. 如果题目或答案中需要表格，必须使用标准 markdown 表格：第一行表头，第二行必须是 `| --- | --- |` 这种分隔行，后面再写数据行\n10. 表格单元格内部禁止换行，禁止使用 `│` 这类竖线字符代替 `|`，禁止输出不完整表格\n11. 不要输出任何 emoji、表情符号、贴纸风格符号或装饰性 pictograph");
    string_from_chars(out.as_slice())
}

/// The text of this prompt part, around its arguments.
pub open spec fn batch_existing_text(number: Seq<char>, points: Seq<char>, head: Seq<char>) -> Seq<char> {
    number + ". 知识点:"@ + points + "；题目摘要:"@ + head
}

fn fill_batch_existing_text(number: &str, points: &str, head: &str) -> (r: String)
    ensures
        r@ == batch_existing_text(number@, points@, head@),
{
    let mut out: Vec<char> = Vec::new();
    append_str(&mut out, number);
    append_str(&mut out, ". 知识点:");
    append_str(&mut out, points);
    append_str(&mut out, "；题目摘要:");
    append_str(&mut out, head);
    string_from_chars(out.as_slice())
}

/// The text of this prompt part, around its arguments.
pub open spec fn duplicate_guard_text(summary: Seq<char>) -> Seq<char> {
    "\n\n以下题目已经生成，禁止重复题型、场景和问法：\n"@ + summary
}

fn fill_duplicate_guard_text(summary: &str) -> (r: String)
    ensures
        r@ == duplicate_guard_text(summary@),
{
    let mut out: Vec<char> = Vec::new();
    append_str(&mut out, "\n\n以下题目已经生成，禁止重复题型、场景和问法：\n");
    append_str(&mut out, summary);
    string_from_chars(out.as_slice())
}

/// The text of this prompt part, around its arguments.
pub open spec fn batch_user_text(primary: Seq<char>, secondary: Seq<char>, avoid: Seq<char>, references: Seq<char>, guard: Seq<char>, extra: Seq<char>, count: Seq<char>, count_again: Seq<char>) -> Seq<char> {
    "本批主知识点："@ + primary + "\n本批辅知识点："@ + secondary + "\n避免重复/避免主题："@ + avoid + "\n\n参考题目风格：\n"@ + references + guard + extra + "\n\n请生成 "@ + count + " 道巩固练习题。再次确认：本批只围绕上述目标知识点出题，不要硬塞未指定知识点；最终回复必须是包含 \"questions\" 数组的合法 JSON 对象，且数组长度必须恰好为 "@ + count_again + "。"@
}

fn fill_batch_user_text(primary: &str, secondary: &str, avoid: &str, references: &str, guard: &str, extra: &str, count: &str, count_again: &str) -> (r: String)
    ensures
        r@ == batch_user_text(primary@, secondary@, avoid@, references@, guard@, extra@, count@, count_again@),
{
    let mut out: Vec<char> = Vec::new();
    append_str(&mut out, "本批主知识点：");
    append_str(&mut out, primary);
    append_str(&mut out, "\n本批辅知识点：");
    append_str(&mut out, secondary);
    append_str(&mut out, "\n避免重复/避免主题：");
    append_str(&mut out, avoid);
    append_str(&mut out, "\n\n参考题目风格：\n");
    append_str(&mut out, references);
    append_str(&mut out, guard);
    append_str(&mut out, extra);
    append_str(&mut out, "\n\n请生成 ");
    append_str(&mut out, count);
    append_str(&mut out, " 道巩固练习题。再次确认：本批只围绕上述目标知识点出题，不要硬塞未指定知识点；最终回复必须是包含 \"questions\" 数组的合法 JSON 对象，且数组长度必须恰好为 ");
    append_str(&mut out, count_again);
    append_str(&mut out, "。");
    string_from_chars(out.as_slice())
}

/// The text of this prompt part, around its arguments.
pub open spec fn fill_system_text(subject: Seq<char>, grade: Seq<char>, count: Seq<char>) -> Seq<char> {
    "你是一个经验丰富的小学"@ + subject + "教师。现在需要补生成剩余的巩固练习题。\n\n内容要求：\n1. 题目必须覆盖给定的薄弱知识点\n2. 题目适合"@ + grade + "学生\n3. 不要重复已有题目，不要改写已有题目\n4. 优先保证题量足够；如果 token 紧张，请缩短题干和答案，不要少题\n\n输出格式要求（非常重要）：\n1. 只输出 JSON，不要输出任何解释、说明、前后缀、标题、备注\n2. 不要使用 markdown 代码块，不要输出 ```json\n3. 输出必须是一个 JSON 对象，包含一个 \"questions\" 数组\n4. 第一个字符必须是 {，最后一个字符必须是 }\n5. \"questions\" 数组必须且只能包含 "@ + count + " 个对象，不能多也不能少\n6. 每个对象必须且只能包含以下 3 个字段：question、answer、knowledge_points\n7. question 与 answer 尽量简洁；如果需要换行请使用 \\n；双引号必须转义为 \\\"\n8. knowledge_points 必须是字符串数组\n9. 不要输出任何 emoji、表情符号、贴纸风格符号或装饰性 pictograph，不要使用 ✅📚⭐🎯😀 等字符"@
}

fn fill_fill_system_text(subject: &str, grade: &str, count: &str) -> (r: String)
    ensures
        r@ == fill_system_text(subject@, grade@, count@),
{
    let mut out: Vec<char> = Vec::new();
    append_str(&mut out, "你是一个经验丰富的小学");
    append_str(&mut out, subject);
    append_str(&mut out, "教师。现在需要补生成剩余的巩固练习题。\n\n内容要求：\n1. 题目必须覆盖给定的薄弱知识点\n2. 题目适合");
    append_str(&mut out, grade);
    append_str(&mut out, "学生\n3. 不要重复已有题目，不要改写已有题目\n4. 优先保证题量足够；如果 token 紧张，请缩短题干和答案，不要少题\n\n输出格式要求（非常重要）：\n1. 只输出 JSON，不要输出任何解释、说明、前后缀、标题、备注\n2. 不要使用 markdown 代码块，不要输出 ```json\n3. 输出必须是一个 JSON 对象，包含一个 \"questions\" 数组\n4. 第一个字符必须是 {，最后一个字符必须是 }\n5. \"questions\" 数组必须且只能包含 ");
    append_str(&mut out, count);
    append_str(&mut out, " 个对象，不能多也不能少\n6. 每个对象必须且只能包含以下 3 个字段：question、answer、knowledge_points\n7. question 与 answer 尽量简洁；如果需要换行请使用 \\n；双引号必须转义为 \\\"\n8. knowledge_points 必须是字符串数组\n9. 不要输出任何 emoji、表情符号、贴纸风格符号或装饰性 pictograph，不要使用 ✅📚⭐🎯😀 等字符");
    string_from_chars(out.as_slice())
}

/// The text of this prompt part, around its arguments.
pub open spec fn fill_user_text(points: Seq<char>, existing: Seq<char>, extra: Seq<char>, count: Seq<char>, count_again: Seq<char>) -> Seq<char> {
    "薄弱知识点："@ + points + "\n\n以下题目已经生成，禁止重复：\n"@ + existing + extra + "\n\n现在请只补生成剩余 "@ + count + " 道新题。最终回复必须是包含 \"questions\" 数组的合法 JSON 对象，且数组长度必须恰好为 "@ + count_again + "。"@
}

fn fill_fill_user_text(points: &str, existing: &str, extra: &str, count: &str, count_again: &str) -> (r: String)
    ensures
        r@ == fill_user_text(points@, existing@, extra@, count@, count_again@),
{
    let mut out: Vec<char> = Vec::new();
    append_str(&mut out, "薄弱知识点：");
    append_str(&mut out, points);
    append_str(&mut out, "\n\n以下题目已经生成，禁止重复：\n");
    append_str(&mut out, existing);
    append_str(&mut out, extra);
    append_str(&mut out, "\n\n现在请只补生成剩余 ");
    append_str(&mut out, count);
    append_str(&mut out, " 道新题。最终回复必须是包含 \"questions\" 数组的合法 JSON 对象，且数组长度必须恰好为 ");
    append_str(&mut out, count_again);
    append_str(&mut out, "。");
    string_from_chars(out.as_slice())
}

/// The text of this prompt part, around its arguments.
pub open spec fn infographic_extra_text(extra: Seq<char>) -> Seq<char> {
    "\n补充要求："@ + extra
}

fn fill_infographic_extra_text(extra: &str) -> (r: String)
    ensures
        r@ == infographic_extra_text(extra@),
{
    let mut out: Vec<char> = Vec::new();
    append_str(&mut out, "\n补充要求：");
    append_str(&mut out, extra);
    string_from_chars(out.as_slice())
}

/// The text of this prompt part, around its arguments.
pub open spec fn infographic_text(grade: Seq<char>, subject: Seq<char>, subject_again: Seq<char>, reasons: Seq<char>, suggestions: Seq<char>, points: Seq<char>, detail: Seq<char>, extra: Seq<char>) -> Seq<char> {
    "请生成一张适合"@ + grade + "学生记忆复习的"@ + subject + "教育信息图。\n\n目标：帮助孩子巩固这阶段还没有完全掌握的知识点，方便记忆、复习和反复查看。\n\n画面要求：\n1. 整体风格温和、鼓励式、儿童友好，适合小学生\n2. 中文排版清晰，标题醒目，信息分区明确\n3. 使用图标、箭头、卡片、分区块帮助记忆\n4. 内容聚焦“薄弱知识点 + 核心规则/口诀 + 易混淆点 + 记忆提醒”\n5. 重点是帮助孩子记住知识点，不是分析错误过程，不要把画面做成教师批改报告\n6. 可以适当加入简短示例、对比提示、步骤提醒，但必须简洁、直观、易记\n7. 避免过多小字，避免复杂背景，确保可读性\n8. 不要出现真人照片、品牌 logo、英文大段文字、血腥或成人元素\n9. 输出为单张信息图，适合作为学习海报保存或直接打印复习\n\n内容组织建议：\n- 用 3~6 个小模块展示最需要巩固的知识点\n- 每个模块优先展示：知识点名称、记忆口诀/规则、一个简短提醒\n- 如果需要展示“易错点”，只保留一句简短提醒，例如“注意进位”“不要漏单位”“先审题再计算”\n- 尽量减少大段“错误原因分析”文字\n\n信息图内容依据：\n- 科目："@ + subject_again + "\n- 共性错误原因（仅作弱参考，不要作为主体）："@ + reasons + "\n- 共性改进建议："@ + suggestions + "\n- 薄弱知识点："@ + points + "\n- 详细分析："@ + detail + "\n"@ + extra + "\n\n请直接根据这些内容生成一张“知识点巩固型阶段学习信息图”。让孩子一眼能看懂、愿意看、看完能帮助记住关键知识点。"@
}

fn fill_infographic_text(grade: &str, subject: &str, subject_again: &str, reasons: &str, suggestions: &str, points: &str, detail: &str, extra: &str) -> (r: String)
    ensures
        r@ == infographic_text(grade@, subject@, subject_again@, reasons@, suggestions@, points@, detail@, extra@),
{
    let mut out: Vec<char> = Vec::new();
    append_str(&mut out, "请生成一张适合");
    append_str(&mut out, grade);
    append_str(&mut out, "学生记忆复习的");
    append_str(&mut out, subject);
    append_str(&mut out, "教育信息图。\n\n目标：帮助孩子巩固这阶段还没有完全掌握的知识点，方便记忆、复习和反复查看。\n\n画面要求：\n1. 整体风格温和、鼓励式、儿童友好，适合小学生\n2. 中文排版清晰，标题醒目，信息分区明确\n3. 使用图标、箭头、卡片、分区块帮助记忆\n4. 内容聚焦“薄弱知识点 + 核心规则/口诀 + 易混淆点 + 记忆提醒”\n5. 重点是帮助孩子记住知识点，不是分析错误过程，不要把画面做成教师批改报告\n6. 可以适当加入简短示例、对比提示、步骤提醒，但必须简洁、直观、易记\n7. 避免过多小字，避免复杂背景，确保可读性\n8. 不要出现真人照片、品牌 logo、英文大段文字、血腥或成人元素\n9. 输出为单张信息图，适合作为学习海报保存或直接打印复习\n\n内容组织建议：\n- 用 3~6 个小模块展示最需要巩固的知识点\n- 每个模块优先展示：知识点名称、记忆口诀/规则、一个简短提醒\n- 如果需要展示“易错点”，只保留一句简短提醒，例如“注意进位”“不要漏单位”“先审题再计算”\n- 尽量减少大段“错误原因分析”文字\n\n信息图内容依据：\n- 科目：");
    append_str(&mut out, subject_again);
    append_str(&mut out, "\n- 共性错误原因（仅作弱参考，不要作为主体）：");
    append_str(&mut out, reasons);
    append_str(&mut out, "\n- 共性改进建议：");
    append_str(&mut out, suggestions);
    append_str(&mut out, "\n- 薄弱知识点：");
    append_str(&mut out, points);
    append_str(&mut out, "\n- 详细分析：");
    append_str(&mut out, detail);
    append_str(&mut out, "\n");
    append_str(&mut out, extra);
    append_str(&mut out, "\n\n请直接根据这些内容生成一张“知识点巩固型阶段学习信息图”。让孩子一眼能看懂、愿意看、看完能帮助记住关键知识点。");
    string_from_chars(out.as_slice())
}

/// The text of this prompt part, around its arguments.
pub open spec fn vision_system_text(teacher: Seq<char>, correction: Seq<char>) -> Seq<char> {
    "你是一个小学试卷/作业的视觉识别专家。你的唯一任务是：从给定的错题图片中，精确识别并分离出以下内容。\n\n颜色定义：\n- "@ + teacher + "：老师批改的内容（对号、叉号、分数、批注等）\n- "@ + correction + "：学生订正的内容\n- 其他颜色：学生做题使用的笔迹\n\n注意：以上为默认颜色定义，如果让你分析的时候有特别说明，必须以当此的要求为准。\n\n请严格以 JSON 格式输出，包含以下字段：\n{\n  \"recognized_text\": \"图片中所有识别到的原始文本（保持原样，包括学生手写内容）\",\n  \"question_text_clean\": \"去掉所有批注、涂改、学生作答后的纯净题目文本\",\n  \"layout_description\": \"版面描述：标题、题号、子题结构、配图位置等\",\n  \"student_answer_text\": \"学生作答的文本内容（区分各小题）\",\n  \"teacher_marks\": [\n    {\n      \"mark_type\": \"对号|叉号|半对|分数|批注|圈画\",\n      \"location_description\": \"在题目中的位置描述\",\n      \"mark_content\": \"标记的具体内容\"\n    }\n  ],\n  \"image_regions\": [[x1, y1, x2, y2]],\n  \"handwriting_confidence\": 0.8\n}\n\n其中：\n- recognized_text: 保留图片中所有文字，包括印刷体和手写体\n- question_text_clean: 只有原题内容，去除学生的答案和老师的批改标记\n- layout_description: 描述题目的版面结构，例如\"第3大题第2小题，包含一个选择题和一个配图\"\n- student_answer_text: 学生的答案文本\n- teacher_marks: 老师批改标记的详细列表，每个标记包含类型、位置和内容\n- image_regions: 配图在原图中的矩形坐标 [[x1, y1, x2, y2], ...]\n- handwriting_confidence: 手写识别的整体置信度（0.0~1.0）\n\n注意：只输出 JSON，不要输出其他内容。"@
}

fn fill_vision_system_text(teacher: &str, correction: &str) -> (r: String)
    ensures
        r@ == vision_system_text(teacher@, correction@),
{
    let mut out: Vec<char> = Vec::new();
    append_str(&mut out, "你是一个小学试卷/作业的视觉识别专家。你的唯一任务是：从给定的错题图片中，精确识别并分离出以下内容。\n\n颜色定义：\n- ");
    append_str(&mut out, teacher);
    append_str(&mut out, "：老师批改的内容（对号、叉号、分数、批注等）\n- ");
    append_str(&mut out, correction);
    append_str(&mut out, "：学生订正的内容\n- 其他颜色：学生做题使用的笔迹\n\n注意：以上为默认颜色定义，如果让你分析的时候有特别说明，必须以当此的要求为准。\n\n请严格以 JSON 格式输出，包含以下字段：\n{\n  \"recognized_text\": \"图片中所有识别到的原始文本（保持原样，包括学生手写内容）\",\n  \"question_text_clean\": \"去掉所有批注、涂改、学生作答后的纯净题目文本\",\n  \"layout_description\": \"版面描述：标题、题号、子题结构、配图位置等\",\n  \"student_answer_text\": \"学生作答的文本内容（区分各小题）\",\n  \"teacher_marks\": [\n    {\n      \"mark_type\": \"对号|叉号|半对|分数|批注|圈画\",\n      \"location_description\": \"在题目中的位置描述\",\n      \"mark_content\": \"标记的具体内容\"\n    }\n  ],\n  \"image_regions\": [[x1, y1, x2, y2]],\n  \"handwriting_confidence\": 0.8\n}\n\n其中：\n- recognized_text: 保留图片中所有文字，包括印刷体和手写体\n- question_text_clean: 只有原题内容，去除学生的答案和老师的批改标记\n- layout_description: 描述题目的版面结构，例如\"第3大题第2小题，包含一个选择题和一个配图\"\n- student_answer_text: 学生的答案文本\n- teacher_marks: 老师批改标记的详细列表，每个标记包含类型、位置和内容\n- image_regions: 配图在原图中的矩形坐标 [[x1, y1, x2, y2], ...]\n- handwriting_confidence: 手写识别的整体置信度（0.0~1.0）\n\n注意：只输出 JSON，不要输出其他内容。");
    string_from_chars(out.as_slice())
}

/// The text of this prompt part, around its arguments.
pub open spec fn extraction_system_text(grade: Seq<char>, subject_line: Seq<char>) -> Seq<char> {
    "你是一个小学题目结构化分析专家。你的任务是基于视觉识别结果，生成标准化的题目结构。\n\n年级："@ + grade + subject_line + "\n\n请严格以 JSON 格式输出，包含以下字段：\n{\n  \"question_markdown_clean\": \"清洗后的完整题目 Markdown（去除所有批注和作答，可重新打印）\",\n  \"question_structure\": {\n    \"question_type\": \"选择题|填空题|判断题|计算题|应用题|阅读理解|写作题|其他\",\n    \"has_sub_questions\": true,\n    \"sub_questions\": [\n      {\n        \"index\": 1,\n        \"type\": \"选择题\",\n        \"stem\": \"小题题干\",\n        \"options\": [\"A. ...\", \"B. ...\", \"C. ...\", \"D. ...\"]\n      }\n    ]\n  },\n  \"image_regions\": [[x1, y1, x2, y2]],\n  \"difficulty\": \"容易|中等|较难|困难\",\n  \"estimated_grade\": \"二年级\"\n}\n\n其中：\n- question_markdown_clean: 完整的纯净题目，用 Markdown 格式，包括题号、题干、选项、配图标记等\n- question_structure: 题目的结构化拆分\n- image_regions: 从视觉识别结果继承的配图坐标\n- difficulty: 基于题目内容和年级评估的难度等级\n- estimated_grade: 预估适用的年级\n\n注意：\n1. question_markdown_clean 必须完整到可以重新用于打印\n2. 如果有公共题干（如阅读理解的文章），必须包含\n3. 只输出 JSON，不要输出其他内容"@
}

fn fill_extraction_system_text(grade: &str, subject_line: &str) -> (r: String)
    ensures
        r@ == extraction_system_text(grade@, subject_line@),
{
    let mut out: Vec<char> = Vec::new();
    append_str(&mut out, "你是一个小学题目结构化分析专家。你的任务是基于视觉识别结果，生成标准化的题目结构。\n\n年级：");
    append_str(&mut out, grade);
    append_str(&mut out, subject_line);
    append_str(&mut out, "\n\n请严格以 JSON 格式输出，包含以下字段：\n{\n  \"question_markdown_clean\": \"清洗后的完整题目 Markdown（去除所有批注和作答，可重新打印）\",\n  \"question_structure\": {\n    \"question_type\": \"选择题|填空题|判断题|计算题|应用题|阅读理解|写作题|其他\",\n    \"has_sub_questions\": true,\n    \"sub_questions\": [\n      {\n        \"index\": 1,\n        \"type\": \"选择题\",\n        \"stem\": \"小题题干\",\n        \"options\": [\"A. ...\", \"B. ...\", \"C. ...\", \"D. ...\"]\n      }\n    ]\n  },\n  \"image_regions\": [[x1, y1, x2, y2]],\n  \"difficulty\": \"容易|中等|较难|困难\",\n  \"estimated_grade\": \"二年级\"\n}\n\n其中：\n- question_markdown_clean: 完整的纯净题目，用 Markdown 格式，包括题号、题干、选项、配图标记等\n- question_structure: 题目的结构化拆分\n- image_regions: 从视觉识别结果继承的配图坐标\n- difficulty: 基于题目内容和年级评估的难度等级\n- estimated_grade: 预估适用的年级\n\n注意：\n1. question_markdown_clean 必须完整到可以重新用于打印\n2. 如果有公共题干（如阅读理解的文章），必须包含\n3. 只输出 JSON，不要输出其他内容");
    string_from_chars(out.as_slice())
}

/// The text of this prompt part, around its arguments.
pub open spec fn extraction_user_text(vision_json: Seq<char>) -> Seq<char> {
    "以下是视觉识别阶段的结果，请基于此生成结构化题目：\n\n"@ + vision_json
}

fn fill_extraction_user_text(vision_json: &str) -> (r: String)
    ensures
        r@ == extraction_user_text(vision_json@),
{
    let mut out: Vec<char> = Vec::new();
    append_str(&mut out, "以下是视觉识别阶段的结果，请基于此生成结构化题目：\n\n");
    append_str(&mut out, vision_json);
    string_from_chars(out.as_slice())
}

/// The text of this prompt part, around its arguments.
pub open spec fn pedagogical_system_text(grade: Seq<char>, subject: Seq<char>) -> Seq<char> {
    "你是一个经验丰富的小学教师，专门分析学生的错题。\n\n年级："@ + grade + "\n科目："@ + subject + "\n\n请基于结构化题目信息和学生的作答，进行教学分析。\n\n请严格以 JSON 格式输出，包含以下字段：\n{\n  \"subject\": \"科目\",\n  \"classification\": [\"知识点标签1\", \"知识点标签2\"],\n  \"error_type\": \"概念错误|计算错误|审题错误|表达错误|粗心错误|方法错误|其他\",\n  \"error_subtype\": \"更细分的错误类型描述\",\n  \"error_reason\": \"详细的错误原因分析\",\n  \"suggestions\": \"可执行的改进建议\",\n  \"root_cause_code\": \"CONCEPT|CALCULATION|READING|EXPRESSION|CARELESS|METHOD|OTHER\",\n  \"confidence\": {\n    \"subject\": 0.95,\n    \"error_type\": 0.8,\n    \"error_reason\": 0.85\n  }\n}\n\n其中：\n- subject: 科目（语文、数学等），如果输入有说明以输入为准\n- classification: 知识点标签数组，如 [\"带余数除法\", \"表内除法\"]\n- error_type: 错误大类\n- error_subtype: 错误子类（更具体，如\"进位加法忘记进位\"）\n- error_reason: 详细分析学生为什么做错\n- suggestions: 具体可执行的改进建议\n- root_cause_code: 根因编码\n- confidence: 各字段的分析置信度\n\n注意：\n1. classification 要具体到可操作的知识点\n2. error_reason 要结合学生实际答案分析，不要泛泛而谈\n3. suggestions 要具体可执行，不要空泛建议\n4. 只输出 JSON，不要输出其他内容"@
}

fn fill_pedagogical_system_text(grade: &str, subject: &str) -> (r: String)
    ensures
        r@ == pedagogical_system_text(grade@, subject@),
{
    let mut out: Vec<char> = Vec::new();
    append_str(&mut out, "你是一个经验丰富的小学教师，专门分析学生的错题。\n\n年级：");
    append_str(&mut out, grade);
    append_str(&mut out, "\n科目：");
    append_str(&mut out, subject);
    append_str(&mut out, "\n\n请基于结构化题目信息和学生的作答，进行教学分析。\n\n请严格以 JSON 格式输出，包含以下字段：\n{\n  \"subject\": \"科目\",\n  \"classification\": [\"知识点标签1\", \"知识点标签2\"],\n  \"error_type\": \"概念错误|计算错误|审题错误|表达错误|粗心错误|方法错误|其他\",\n  \"error_subtype\": \"更细分的错误类型描述\",\n  \"error_reason\": \"详细的错误原因分析\",\n  \"suggestions\": \"可执行的改进建议\",\n  \"root_cause_code\": \"CONCEPT|CALCULATION|READING|EXPRESSION|CARELESS|METHOD|OTHER\",\n  \"confidence\": {\n    \"subject\": 0.95,\n    \"error_type\": 0.8,\n    \"error_reason\": 0.85\n  }\n}\n\n其中：\n- subject: 科目（语文、数学等），如果输入有说明以输入为准\n- classification: 知识点标签数组，如 [\"带余数除法\", \"表内除法\"]\n- error_type: 错误大类\n- error_subtype: 错误子类（更具体，如\"进位加法忘记进位\"）\n- error_reason: 详细分析学生为什么做错\n- suggestions: 具体可执行的改进建议\n- root_cause_code: 根因编码\n- confidence: 各字段的分析置信度\n\n注意：\n1. classification 要具体到可操作的知识点\n2. error_reason 要结合学生实际答案分析，不要泛泛而谈\n3. suggestions 要具体可执行，不要空泛建议\n4. 只输出 JSON，不要输出其他内容");
    string_from_chars(out.as_slice())
}

/// The text of this prompt part, around its arguments.
pub open spec fn pedagogical_user_text(extraction_json: Seq<char>, student_answer: Seq<char>) -> Seq<char> {
    "以下是结构化题目信息：\n\n"@ + extraction_json + "\n\n学生作答内容：\n"@ + student_answer + "\n\n请分析这道错题。"@
}

fn fill_pedagogical_user_text(extraction_json: &str, student_answer: &str) -> (r: String)
    ensures
        r@ == pedagogical_user_text(extraction_json@, student_answer@),
{
    let mut out: Vec<char> = Vec::new();
    append_str(&mut out, "以下是结构化题目信息：\n\n");
    append_str(&mut out, extraction_json);
    append_str(&mut out, "\n\n学生作答内容：\n");
    append_str(&mut out, student_answer);
    append_str(&mut out, "\n\n请分析这道错题。");
    string_from_chars(out.as_slice())
}

// ── shared pieces ────────────────────────────────────────────────────

/// A system message with one text.
pub open spec fn system_msg(t: Seq<char>) -> MessageModel {
    MessageModel { role: "system"@, parts: seq![PartModel::Text(t)] }
}

/// A user message with one text.
pub open spec fn user_msg(t: Seq<char>) -> MessageModel {
    MessageModel { role: "user"@, parts: seq![PartModel::Text(t)] }
}

/// `o`'s text, or `d` when there is none.
pub open spec fn text_or(o: Option<Seq<char>>, d: Seq<char>) -> Seq<char> {
    match o {
        Some(x) => x,
        None => d,
    }
}

/// The text of an optional string slice.
pub open spec fn str_opt(o: Option<&str>) -> Option<Seq<char>> {
    match o {
        Some(s) => Some(s@),
        None => None,
    }
}

fn or_text(o: &Option<String>, d: &str) -> (r: String)
    ensures
        r@ == text_or(opt_view(*o), d@),
{
    match o {
        Some(s) => s.clone(),
        None => d.to_owned(),
    }
}

fn number(n: u32) -> (r: String)
    ensures
        r@ == decimal(n as nat),
{
    let mut out: Vec<char> = Vec::new();
    append_decimal(&mut out, n as usize);
    string_from_chars(out.as_slice())
}

fn joined(parts: &[String], sep: &str) -> (r: String)
    ensures
        r@ == join(views(parts@), sep@),
{
    let mut v: Vec<String> = Vec::new();
    let n = parts.len();
    let mut i: usize = 0;
    while i < n
        invariant
            i <= n,
            n == parts@.len(),
            views(v@) == views(parts@).take(i as int),
        decreases n - i,
    {
        let ghost before = v@;
        v.push(parts[i].clone());
        assert(views(v@) =~= views(before).push(parts@[i as int]@));
        assert(views(parts@).take(i + 1) =~= views(parts@).take(i as int).push(parts@[i as int]@));
        i = i + 1;
    }
    assert(views(parts@).take(n as int) =~= views(parts@));
    let mut out: Vec<char> = Vec::new();
    append_joined(&mut out, &v, sep);
    string_from_chars(out.as_slice())
}

/// The user's extra requirements as appended to a prompt, when given.
pub open spec fn extra_block(r: Option<Seq<char>>) -> Seq<char> {
    match r {
        Some(x) => extra_requirements_text(x),
        None => Seq::empty(),
    }
}

fn extra(requirements: Option<&str>) -> (r: String)
    ensures
        r@ == extra_block(str_opt(requirements)),
{
    match requirements {
        Some(x) => fill_extra_requirements_text(x),
        None => String::new(),
    }
}

/// At most the first `n` characters of `s`.
pub open spec fn first_chars(s: Seq<char>, n: nat) -> Seq<char> {
    if s.len() <= n {
        s
    } else {
        s.take(n as int)
    }
}

fn take_chars(s: &str, n: usize) -> (r: String)
    ensures
        r@ == first_chars(s@, n as nat),
{
    let v = chars_of(s);
    if v.len() <= n {
        string_from_chars(v.as_slice())
    } else {
        let t = crate::text::copy_range(v.as_slice(), 0, n);
        string_from_chars(t.as_slice())
    }
}

/// At most `n`.
pub open spec fn at_most(len: nat, n: nat) -> nat {
    if len <= n {
        len
    } else {
        n
    }
}

// ── the legacy single-call analysis ──────────────────────────────────

/// The prompt of the single-call analysis: colour conventions, grade and,
/// when given, subject.
pub open spec fn analysis_prompt(default_grade: Seq<char>, request: AnalysisRequest) -> Seq<MessageModel> {
    seq![
        system_msg(
            analysis_system_text(
                text_or(opt_view(request.color_teacher), "红色"@),
                "老师批改"@,
                text_or(opt_view(request.color_correction), "蓝色"@),
                text_or(opt_view(request.grade_level), default_grade),
                match request.subject {
                    Some(s) => subject_line_text(s@),
                    None => Seq::empty(),
                },
            ),
        ),
    ]
}

/// Builds the prompt of the single-call analysis; the caller adds the image.
pub fn build_analysis_prompt(defaults: &DefaultsConfig, request: &AnalysisRequest) -> (r: Vec<
    ChatMessage,
>)
    ensures
        message_views(r@) == analysis_prompt(defaults.grade_level@, *request),
{
    let teacher = or_text(&request.color_teacher, "红色");
    let correction = or_text(&request.color_correction, "蓝色");
    let grade = match &request.grade_level {
        Some(g) => g.clone(),
        None => defaults.grade_level.clone(),
    };
    let subject_line = match &request.subject {
        Some(s) => fill_subject_line_text(s.as_str()),
        None => String::new(),
    };
    let system = fill_analysis_system_text(
        teacher.as_str(),
        "老师批改",
        correction.as_str(),
        grade.as_str(),
        subject_line.as_str(),
    );
    let mut messages: Vec<ChatMessage> = Vec::new();
    messages.push(ChatMessage::system(system.as_str()));
    assert(message_views(messages@) =~= analysis_prompt(defaults.grade_level@, *request));
    messages
}

/// The text sent with the image of the single-call analysis.
pub fn analysis_user_text() -> (r: &'static str)
    ensures
        r@ == "请分析这张错题图片。"@,
{
    "请分析这张错题图片。"
}

// ── summaries ────────────────────────────────────────────────────────

/// Builds the prompt for a periodic summary of the error records.
pub fn build_summary_prompt(subject: &str, grade_level: &str, records_text: &str) -> (r: Vec<
    ChatMessage,
>)
    ensures
        message_views(r@) == seq![
            system_msg(summary_system_text(subject@)),
            user_msg(summary_user_text(subject@, grade_level@, records_text@)),
        ],
{
    let system = fill_summary_system_text(subject);
    let user = fill_summary_user_text(subject, grade_level, records_text);
    let mut messages: Vec<ChatMessage> = Vec::new();
    messages.push(ChatMessage::system(system.as_str()));
    messages.push(ChatMessage::user_text(user.as_str()));
    assert(message_views(messages@) =~= seq![
        system_msg(summary_system_text(subject@)),
        user_msg(summary_user_text(subject@, grade_level@, records_text@)),
    ]);
    messages
}

/// The prompt for an infographic of a summary.
pub open spec fn infographic_prompt(
    subject: Seq<char>,
    grade_level: Seq<char>,
    summary: Summary,
    weak_points: Seq<Seq<char>>,
    extra: Option<Seq<char>>,
) -> Seq<char> {
    infographic_text(
        grade_level,
        subject,
        subject,
        summary.common_reasons@,
        summary.common_suggestions@,
        join(weak_points, "、"@),
        summary.detail@,
        match extra {
            Some(v) => infographic_extra_text(v),
            None => Seq::empty(),
        },
    )
}

/// Builds the image prompt for a knowledge-point infographic of a summary.
pub fn build_summary_infographic_prompt(
    subject: &str,
    grade_level: &str,
    summary: &Summary,
    weak_points: &[String],
    extra_requirements: Option<&str>,
) -> (r: String)
    ensures
        r@ == infographic_prompt(
            subject@,
            grade_level@,
            *summary,
            views(weak_points@),
            str_opt(extra_requirements),
        ),
{
    let extra = match extra_requirements {
        Some(v) => fill_infographic_extra_text(v),
        None => String::new(),
    };
    let points = joined(weak_points, "、");
    fill_infographic_text(
        grade_level,
        subject,
        subject,
        summary.common_reasons.as_str(),
        summary.common_suggestions.as_str(),
        points.as_str(),
        summary.detail.as_str(),
        extra.as_str(),
    )
}

// ── practice ─────────────────────────────────────────────────────────

/// The prompt for a whole practice set at once.
pub open spec fn practice_prompt(
    subject: Seq<char>,
    grade_level: Seq<char>,
    weak_points: Seq<Seq<char>>,
    reference_questions: Seq<char>,
    count: u32,
    requirements: Option<Seq<char>>,
) -> Seq<MessageModel> {
    seq![
        system_msg(practice_system_text(subject, grade_level, decimal(count as nat))),
        user_msg(
            practice_user_text(
                join(weak_points, "、"@),
                reference_questions,
                extra_block(requirements),
                decimal(count as nat),
                decimal(count as nat),
            ),
        ),
    ]
}

/// Builds the prompt for a practice set of `count` questions.
pub fn build_practice_prompt(
    subject: &str,
    grade_level: &str,
    weak_points: &[String],
    reference_questions: &str,
    count: u32,
    requirements: Option<&str>,
) -> (r: Vec<ChatMessage>)
    ensures
        message_views(r@) == practice_prompt(
            subject@,
            grade_level@,
            views(weak_points@),
            reference_questions@,
            count,
            str_opt(requirements),
        ),
{
    let c = number(count);
    let system = fill_practice_system_text(subject, grade_level, c.as_str());
    let points = joined(weak_points, "、");
    let ex = extra(requirements);
    let user = fill_practice_user_text(
        points.as_str(),
        reference_questions,
        ex.as_str(),
        c.as_str(),
        c.as_str(),
    );
    let mut messages: Vec<ChatMessage> = Vec::new();
    messages.push(ChatMessage::system(system.as_str()));
    messages.push(ChatMessage::user_text(user.as_str()));
    assert(message_views(messages@) =~= practice_prompt(
        subject@,
        grade_level@,
        views(weak_points@),
        reference_questions@,
        count,
        str_opt(requirements),
    ));
    messages
}

/// The first five reference questions, numbered `R1`, `R2`, ...
pub open spec fn plan_references(refs: Seq<Seq<char>>) -> Seq<char> {
    join(
        Seq::new(at_most(refs.len(), 5), |i: int| plan_reference_text(decimal((i + 1) as nat), refs[i])),
        "\n\n"@,
    )
}

/// The first six generated questions as one line each: number, knowledge
/// points and the first `width` characters of the question, in `line`'s form.
pub open spec fn existing_lines(qs: Seq<PracticeQuestion>, batch: bool) -> Seq<char> {
    join(
        Seq::new(
            at_most(qs.len(), 6),
            |i: int|
                if batch {
                    batch_existing_text(
                        decimal((i + 1) as nat),
                        join(views(qs[i].knowledge_points@), "、"@),
                        first_chars(qs[i].question@, 80),
                    )
                } else {
                    plan_existing_text(
                        decimal((i + 1) as nat),
                        join(views(qs[i].knowledge_points@), "、"@),
                        first_chars(qs[i].question@, 60),
                    )
                },
        ),
        "\n"@,
    )
}

fn references_text(refs: &[String]) -> (r: String)
    ensures
        r@ == plan_references(views(refs@)),
{
    let n = if refs.len() < 5 {
        refs.len()
    } else {
        5
    };
    let ghost target = Seq::new(
        at_most(views(refs@).len(), 5),
        |i: int| plan_reference_text(decimal((i + 1) as nat), views(refs@)[i]),
    );
    let mut lines: Vec<String> = Vec::new();
    let mut i: usize = 0;
    while i < n
        invariant
            i <= n,
            n <= refs@.len(),
            n <= 5,
            n == target.len(),
            forall|k: int| 0 <= k < n ==> #[trigger] target[k] == plan_reference_text(decimal((k + 1) as nat), refs@[k]@),
            views(lines@) == target.take(i as int),
        decreases n - i,
    {
        let num = number((i + 1) as u32);
        let ghost before = lines@;
        let line = fill_plan_reference_text(num.as_str(), refs[i].as_str());
        assert(line@ == target[i as int]);
        lines.push(line);
        assert(views(lines@) =~= views(before).push(target[i as int]));
        assert(views(lines@) =~= target.take(i + 1));
        i = i + 1;
    }
    assert(target.take(n as int) =~= target);
    let mut out: Vec<char> = Vec::new();
    append_joined(&mut out, &lines, "\n\n");
    string_from_chars(out.as_slice())
}

fn existing_text(qs: &[PracticeQuestion], batch: bool) -> (r: String)
    ensures
        r@ == existing_lines(qs@, batch),
{
    let n = if qs.len() < 6 {
        qs.len()
    } else {
        6
    };
    let ghost target = Seq::new(
        at_most(qs@.len(), 6),
        |i: int|
            if batch {
                batch_existing_text(
                    decimal((i + 1) as nat),
                    join(views(qs@[i].knowledge_points@), "、"@),
                    first_chars(qs@[i].question@, 80),
                )
            } else {
                plan_existing_text(
                    decimal((i + 1) as nat),
                    join(views(qs@[i].knowledge_points@), "、"@),
                    first_chars(qs@[i].question@, 60),
                )
            },
    );
    let mut lines: Vec<String> = Vec::new();
    let mut i: usize = 0;
    while i < n
        invariant
            i <= n,
            n <= qs@.len(),
            n == target.len(),
            n <= 6,
            forall|k: int| 0 <= k < n ==> #[trigger] target[k] == if batch {
                batch_existing_text(
                    decimal((k + 1) as nat),
                    join(views(qs@[k].knowledge_points@), "、"@),
                    first_chars(qs@[k].question@, 80),
                )
            } else {
                plan_existing_text(
                    decimal((k + 1) as nat),
                    join(views(qs@[k].knowledge_points@), "、"@),
                    first_chars(qs@[k].question@, 60),
                )
            },
            views(lines@) == target.take(i as int),
        decreases n - i,
    {
        let q = &qs[i];
        let num = number((i + 1) as u32);
        let points = joined(q.knowledge_points.as_slice(), "、");
        let line = if batch {
            let head = take_chars(q.question.as_str(), 80);
            fill_batch_existing_text(num.as_str(), points.as_str(), head.as_str())
        } else {
            let head = take_chars(q.question.as_str(), 60);
            fill_plan_existing_text(num.as_str(), points.as_str(), head.as_str())
        };
        let ghost before = lines@;
        assert(line@ == target[i as int]);
        lines.push(line);
        assert(views(lines@) =~= views(before).push(target[i as int]));
        assert(views(lines@) =~= target.take(i + 1));
        i = i + 1;
    }
    assert(target.take(n as int) =~= target);
    let mut out: Vec<char> = Vec::new();
    append_joined(&mut out, &lines, "\n");
    string_from_chars(out.as_slice())
}

/// The prompt that asks for a plan of the practice set.
pub open spec fn plan_prompt(
    subject: Seq<char>,
    grade_level: Seq<char>,
    weak_points: Seq<Seq<char>>,
    reference_questions: Seq<Seq<char>>,
    count: u32,
    requirements: Option<Seq<char>>,
    existing: Seq<PracticeQuestion>,
) -> Seq<MessageModel> {
    let ex = existing_lines(existing, false);
    seq![
        system_msg(plan_system_text(subject, decimal(count as nat), decimal(count as nat))),
        user_msg(
            plan_user_text(
                subject,
                grade_level,
                decimal(count as nat),
                join(weak_points, "、"@),
                plan_references(reference_questions),
                if ex.len() == 0 {
                    "无"@
                } else {
                    ex
                },
                match requirements {
                    Some(r) => plan_extra_text(r),
                    None => Seq::empty(),
                },
            ),
        ),
    ]
}

/// Builds the prompt that asks the model to plan the practice set.
pub fn build_practice_plan_prompt(
    subject: &str,
    grade_level: &str,
    weak_points: &[String],
    reference_questions: &[String],
    count: u32,
    requirements: Option<&str>,
    existing_questions: &[PracticeQuestion],
) -> (r: Vec<ChatMessage>)
    ensures
        message_views(r@) == plan_prompt(
            subject@,
            grade_level@,
            views(weak_points@),
            views(reference_questions@),
            count,
            str_opt(requirements),
            existing_questions@,
        ),
{
    let c = number(count);
    let system = fill_plan_system_text(subject, c.as_str(), c.as_str());
    let references = references_text(reference_questions);
    let existing = existing_text(existing_questions, false);
    let ex = match requirements {
        Some(r) => fill_plan_extra_text(r),
        None => String::new(),
    };
    let points = joined(weak_points, "、");
    let existing_or_none = if existing.as_str().is_empty() {
        "无".to_owned()
    } else {
        existing
    };
    let user = fill_plan_user_text(
        subject,
        grade_level,
        c.as_str(),
        points.as_str(),
        references.as_str(),
        existing_or_none.as_str(),
        ex.as_str(),
    );
    let mut messages: Vec<ChatMessage> = Vec::new();
    messages.push(ChatMessage::system(system.as_str()));
    messages.push(ChatMessage::user_text(user.as_str()));
    assert(message_views(messages@) =~= plan_prompt(
        subject@,
        grade_level@,
        views(weak_points@),
        views(reference_questions@),
        count,
        str_opt(requirements),
        existing_questions@,
    ));
    messages
}

/// `"无"` for an empty list, else its items joined by `、`.
pub open spec fn list_or_none(v: Seq<Seq<char>>) -> Seq<char> {
    if v.len() == 0 {
        "无"@
    } else {
        join(v, "、"@)
    }
}

/// The prompt for one batch of practice questions following a plan item.
pub open spec fn batch_prompt(
    subject: Seq<char>,
    grade_level: Seq<char>,
    item: PracticeQuestionPlanItem,
    reference_questions: Seq<char>,
    existing: Seq<PracticeQuestion>,
    count: u32,
    requirements: Option<Seq<char>>,
) -> Seq<MessageModel> {
    let summary = existing_lines(existing, true);
    seq![
        system_msg(
            batch_system_text(
                subject,
                grade_level,
                item.question_form@,
                item.material_type@,
                if item.requires_image {
                    "是"@
                } else {
                    "否"@
                },
                role_variant_name(item.image_role),
                mode_variant_name(item.dependency_mode),
                decimal(count as nat),
            ),
        ),
        user_msg(
            batch_user_text(
                item.primary_point@,
                list_or_none(views(item.secondary_points@)),
                list_or_none(views(item.avoid_topics@)),
                reference_questions,
                if summary.len() == 0 {
                    Seq::empty()
                } else {
                    duplicate_guard_text(summary)
                },
                extra_block(requirements),
                decimal(count as nat),
                decimal(count as nat),
            ),
        ),
    ]
}

fn list_or_none_text(v: &Vec<String>) -> (r: String)
    ensures
        r@ == list_or_none(views(v@)),
{
    if v.len() == 0 {
        "无".to_owned()
    } else {
        joined(v.as_slice(), "、")
    }
}

/// Builds the prompt for one batch of questions on a plan item's points.
pub fn build_practice_batch_prompt(
    subject: &str,
    grade_level: &str,
    plan_item: &PracticeQuestionPlanItem,
    reference_questions: &str,
    existing_questions: &[PracticeQuestion],
    count: u32,
    requirements: Option<&str>,
) -> (r: Vec<ChatMessage>)
    ensures
        message_views(r@) == batch_prompt(
            subject@,
            grade_level@,
            *plan_item,
            reference_questions@,
            existing_questions@,
            count,
            str_opt(requirements),
        ),
{
    let c = number(count);
    let system = fill_batch_system_text(
        subject,
        grade_level,
        plan_item.question_form.as_str(),
        plan_item.material_type.as_str(),
        if plan_item.requires_image {
            "是"
        } else {
            "否"
        },
        plan_item.image_role.variant_name(),
        plan_item.dependency_mode.variant_name(),
        c.as_str(),
    );
    let summary = existing_text(existing_questions, true);
    let guard = if summary.as_str().is_empty() {
        String::new()
    } else {
        fill_duplicate_guard_text(summary.as_str())
    };
    let ex = extra(requirements);
    let secondary = list_or_none_text(&plan_item.secondary_points);
    let avoid = list_or_none_text(&plan_item.avoid_topics);
    let user = fill_batch_user_text(
        plan_item.primary_point.as_str(),
        secondary.as_str(),
        avoid.as_str(),
        reference_questions,
        guard.as_str(),
        ex.as_str(),
        c.as_str(),
        c.as_str(),
    );
    let mut messages: Vec<ChatMessage> = Vec::new();
    messages.push(ChatMessage::system(system.as_str()));
    messages.push(ChatMessage::user_text(user.as_str()));
    assert(message_views(messages@) =~= batch_prompt(
        subject@,
        grade_level@,
        *plan_item,
        reference_questions@,
        existing_questions@,
        count,
        str_opt(requirements),
    ));
    messages
}

/// The prompt that asks for the questions still missing.
pub open spec fn fill_prompt(
    subject: Seq<char>,
    grade_level: Seq<char>,
    weak_points: Seq<Seq<char>>,
    existing_json: Seq<char>,
    count: u32,
    requirements: Option<Seq<char>>,
) -> Seq<MessageModel> {
    seq![
        system_msg(fill_system_text(subject, grade_level, decimal(count as nat))),
        user_msg(
            fill_user_text(
                join(weak_points, "、"@),
                existing_json,
                extra_block(requirements),
                decimal(count as nat),
                decimal(count as nat),
            ),
        ),
    ]
}

/// Builds the prompt for the remaining `count` questions; `existing_json` is
/// the questions generated so far, as JSON.
pub fn build_practice_fill_prompt(
    subject: &str,
    grade_level: &str,
    weak_points: &[String],
    existing_json: &str,
    count: u32,
    requirements: Option<&str>,
) -> (r: Vec<ChatMessage>)
    ensures
        message_views(r@) == fill_prompt(
            subject@,
            grade_level@,
            views(weak_points@),
            existing_json@,
            count,
            str_opt(requirements),
        ),
{
    let c = number(count);
    let system = fill_fill_system_text(subject, grade_level, c.as_str());
    let points = joined(weak_points, "、");
    let ex = extra(requirements);
    let user = fill_fill_user_text(points.as_str(), existing_json, ex.as_str(), c.as_str(), c.as_str());
    let mut messages: Vec<ChatMessage> = Vec::new();
    messages.push(ChatMessage::system(system.as_str()));
    messages.push(ChatMessage::user_text(user.as_str()));
    assert(message_views(messages@) =~= fill_prompt(
        subject@,
        grade_level@,
        views(weak_points@),
        existing_json@,
        count,
        str_opt(requirements),
    ));
    messages
}

// ── the multi-stage analysis ─────────────────────────────────────────

/// Builds the prompt of the vision recognition stage.
pub fn build_vision_recognition_prompt(request: &AnalysisRequest) -> (r: Vec<ChatMessage>)
    ensures
        message_views(r@) == seq![
            system_msg(
                vision_system_text(
                    text_or(opt_view(request.color_teacher), "红色"@),
                    text_or(opt_view(request.color_correction), "蓝色"@),
                ),
            ),
        ],
{
    let teacher = or_text(&request.color_teacher, "红色");
    let correction = or_text(&request.color_correction, "蓝色");
    let system = fill_vision_system_text(teacher.as_str(), correction.as_str());
    let mut messages: Vec<ChatMessage> = Vec::new();
    messages.push(ChatMessage::system(system.as_str()));
    assert(message_views(messages@) =~= seq![
        system_msg(
            vision_system_text(
                text_or(opt_view(request.color_teacher), "红色"@),
                text_or(opt_view(request.color_correction), "蓝色"@),
            ),
        ),
    ]);
    messages
}

/// The text sent with the image of the vision recognition stage.
pub fn vision_recognition_user_text() -> (r: &'static str)
    ensures
        r@ == "请识别这张错题图片中的所有内容，按照系统提示的 JSON 格式输出。"@,
{
    "请识别这张错题图片中的所有内容，按照系统提示的 JSON 格式输出。"
}

/// Builds the prompt of the structured extraction stage.
pub fn build_structured_extraction_prompt(defaults: &DefaultsConfig, request: &AnalysisRequest) -> (r:
    Vec<ChatMessage>)
    ensures
        message_views(r@) == seq![
            system_msg(
                extraction_system_text(
                    text_or(opt_view(request.grade_level), defaults.grade_level@),
                    match request.subject {
                        Some(s) => subject_line_text(s@),
                        None => Seq::empty(),
                    },
                ),
            ),
        ],
{
    let grade = match &request.grade_level {
        Some(g) => g.clone(),
        None => defaults.grade_level.clone(),
    };
    let subject_line = match &request.subject {
        Some(s) => fill_subject_line_text(s.as_str()),
        None => String::new(),
    };
    let system = fill_extraction_system_text(grade.as_str(), subject_line.as_str());
    let mut messages: Vec<ChatMessage> = Vec::new();
    messages.push(ChatMessage::system(system.as_str()));
    assert(message_views(messages@) =~= seq![
        system_msg(
            extraction_system_text(
                text_or(opt_view(request.grade_level), defaults.grade_level@),
                match request.subject {
                    Some(s) => subject_line_text(s@),
                    None => Seq::empty(),
                },
            ),
        ),
    ]);
    messages
}

/// The user text of the structured extraction stage around the vision JSON.
pub fn structured_extraction_user_text(vision_json: &str) -> (r: String)
    ensures
        r@ == extraction_user_text(vision_json@),
{
    fill_extraction_user_text(vision_json)
}

/// Builds the prompt of the pedagogical analysis stage.
pub fn build_pedagogical_analysis_prompt(defaults: &DefaultsConfig, request: &AnalysisRequest) -> (r:
    Vec<ChatMessage>)
    ensures
        message_views(r@) == seq![
            system_msg(
                pedagogical_system_text(
                    text_or(opt_view(request.grade_level), defaults.grade_level@),
                    text_or(opt_view(request.subject), "根据题目自动判断"@),
                ),
            ),
        ],
{
    let grade = match &request.grade_level {
        Some(g) => g.clone(),
        None => defaults.grade_level.clone(),
    };
    let subject = or_text(&request.subject, "根据题目自动判断");
    let system = fill_pedagogical_system_text(grade.as_str(), subject.as_str());
    let mut messages: Vec<ChatMessage> = Vec::new();
    messages.push(ChatMessage::system(system.as_str()));
    assert(message_views(messages@) =~= seq![
        system_msg(
            pedagogical_system_text(
                text_or(opt_view(request.grade_level), defaults.grade_level@),
                text_or(opt_view(request.subject), "根据题目自动判断"@),
            ),
        ),
    ]);
    messages
}

/// The user text of the pedagogical stage: the extraction JSON and the
/// student's answer, or a note that none was recognised.
pub fn pedagogical_analysis_user_text(extraction_json: &str, student_answer: &str) -> (r: String)
    ensures
        r@ == pedagogical_user_text(
            extraction_json@,
            if student_answer@.len() == 0 {
                "（未识别到学生作答）"@
            } else {
                student_answer@
            },
        ),
{
    if student_answer.is_empty() {
        fill_pedagogical_user_text(extraction_json, "（未识别到学生作答）")
    } else {
        fill_pedagogical_user_text(extraction_json, student_answer)
    }
}

} // verus!
