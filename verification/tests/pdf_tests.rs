use error_book::analysis::parser::PracticeQuestion;
use error_book::pdf::{
    escape_typst, image_width_for_question, normalize_markdown_tables, parse_markdown_table,
    push_labeled_multiline_typst, push_multiline_typst, question_image_markup,
    render_question_markup, sanitize_text, split_image_description,
};
use error_book::practice::planner::PracticeImageType;

#[test]
fn test_escape_typst() {
    assert_eq!(escape_typst("hello"), "hello");
    assert_eq!(escape_typst("a#b"), "a\\#b");
    assert_eq!(escape_typst("a\\b"), "a\\\\b");
    assert_eq!(escape_typst("$x$"), "\\$x\\$");
    assert_eq!(escape_typst("*bold*"), "\\*bold\\*");
    assert_eq!(escape_typst("x < y > z"), "x \\< y \\> z");
}

#[test]
fn test_sanitize_text() {
    assert_eq!(sanitize_text("😀 hello"), "hello");
    assert_eq!(sanitize_text("✅ done"), "done");
    assert_eq!(sanitize_text("  clean  "), "clean");
}

#[test]
fn test_render_question_markup_expands_parenthesis_blank() {
    let rendered = render_question_markup("请填空：大 - （  ）\n多 - ( )");
    assert!(rendered.contains("（　　　"));
    assert!(!rendered.contains("（  ）"));
    assert!(!rendered.contains("( )"));
}

#[test]
fn test_render_question_markup_expands_underscores() {
    let rendered = render_question_markup("请填写 ____ 和 ______");
    assert!(rendered.contains("\\_\\_\\_\\_"));
    assert!(rendered.contains("\\_\\_\\_\\_\\_\\_"));
}

#[test]
fn test_push_multiline_typst_inserts_linebreaks() {
    let mut out = String::new();
    push_multiline_typst(&mut out, "第一行\n第二行\n第三行");
    assert!(out.contains("第一行\n#linebreak()\n第二行\n#linebreak()\n第三行"));
}

#[test]
fn test_push_labeled_multiline_typst_preserves_answer_newlines() {
    let mut out = String::new();
    push_labeled_multiline_typst(&mut out, "答案", "步骤1\n步骤2");
    assert!(out.contains("答案: 步骤1\n#linebreak()\n步骤2\n"));
}

#[test]
fn test_split_image_description_extracts_note() {
    let (question, note) = split_image_description("题干\n[图片说明：一个计数器，有2颗珠子。]\n后文");
    assert!(question.contains("题干"));
    assert!(question.contains("后文"));
    assert!(!question.contains("图片说明"));
    assert_eq!(note.as_deref(), Some("一个计数器，有2颗珠子。"));
}

#[test]
fn test_parse_markdown_table_detects_basic_table() {
    let lines = vec!["| 姓名 | 分数 |", "| --- | --- |", "| 小明 | 95 |", "| 小红 | 88 |"];
    let parsed = parse_markdown_table(&lines).unwrap();
    assert_eq!(parsed.0, 4);
    assert!(parsed.1.contains("#table(columns: 2"));
    assert!(parsed.1.contains("小明"));
}

#[test]
fn test_normalize_markdown_tables_repairs_two_row_table() {
    let raw = "| 2本 | 8本 | 32本 | 38本 |\n|│\n│( ) | 科技书 | 故事书 | ( ) |";
    let normalized = normalize_markdown_tables(raw);
    assert!(normalized.contains("| --- | --- | --- | --- |"), "{}", normalized);
    assert!(normalized.contains("| ( ) | 科技书 | 故事书 | ( ) |"), "{}", normalized);
}

#[test]
fn test_image_width_for_precise_question_is_smaller() {
    let q = PracticeQuestion {
        question: "表格题".to_string(),
        answer: "略".to_string(),
        knowledge_points: vec!["表格读取".to_string()],
        question_form: None,
        material_type: None,
        requires_image: true,
        image_role: None,
        image_type: Some(PracticeImageType::Table),
        dependency_mode: None,
        image_spec: None,
        image_path: Some("abc.png".to_string()),
    };
    assert_eq!(image_width_for_question(&q), "52%");
}

#[test]
fn test_question_image_markup_renders_registered_asset() {
    let q = PracticeQuestion {
        question: "看图回答".to_string(),
        answer: "略".to_string(),
        knowledge_points: vec!["看图题".to_string()],
        question_form: None,
        material_type: None,
        requires_image: true,
        image_role: None,
        image_type: None,
        dependency_mode: None,
        image_spec: None,
        image_path: Some("abc.png".to_string()),
    };
    let assets = vec!["/practice-images/abc.png".to_string()];
    let markup = question_image_markup(&q, &assets).unwrap();
    assert!(markup.contains("#image"));
    assert!(markup.contains("/practice-images/abc.png"));
}
