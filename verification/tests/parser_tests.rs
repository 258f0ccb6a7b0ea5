use error_book::analysis::parser::{
    diagnose_practice_json_error, extract_questions_array_from_wrapper, format_diagnosis,
    repair_truncated_json_array, tail_chars, truncate_for_error,
};

fn parse_array(s: &str) -> Vec<serde_json::Value> {
    serde_json::from_str::<Vec<serde_json::Value>>(s).unwrap()
}

fn strings(v: &serde_json::Value) -> Vec<String> {
    v.as_array()
        .unwrap()
        .iter()
        .map(|x| x.as_str().unwrap().to_string())
        .collect()
}

#[test]
fn repair_truncated_practice_with_nested_knowledge_points() {
    let truncated = r#"[{"question":"What is 2+2?","answer":"4","knowledge_points":["arithmetic","addition"#;
    let repaired = repair_truncated_json_array(truncated);
    let parsed = parse_array(&repaired);
    assert_eq!(parsed.len(), 1);
    assert_eq!(parsed[0]["question"], "What is 2+2?");
    assert_eq!(parsed[0]["answer"], "4");
    assert_eq!(strings(&parsed[0]["knowledge_points"]), vec!["arithmetic", "addition"]);
}

#[test]
fn repair_keeps_complete_objects_and_drops_truncated_last() {
    let truncated = r#"[
            {"question":"Q1","answer":"A1","knowledge_points":["k1"]},
            {"question":"Q2","answer":"A2","knowledge_points":["k2"]},
            {"question":"Q3","answer":"A3","knowledge_points":["k3"#;
    let repaired = repair_truncated_json_array(truncated);
    let parsed = parse_array(&repaired);
    assert_eq!(parsed.len(), 2);
    assert_eq!(parsed[0]["question"], "Q1");
    assert_eq!(parsed[1]["question"], "Q2");
}

#[test]
fn escaped_quotes_in_strings_do_not_break_scanning() {
    let truncated = r#"[{"question":"He said \"hello\"","answer":"greeting","knowledge_points":["quotes"]}, {"question":"She replied \"world\"","answer":"response","knowledge_points":["more quotes"#;
    let repaired = repair_truncated_json_array(truncated);
    let parsed = parse_array(&repaired);
    assert_eq!(parsed.len(), 1);
    assert_eq!(parsed[0]["question"], r#"He said "hello""#);
    assert_eq!(strings(&parsed[0]["knowledge_points"]), vec!["quotes"]);
}

#[test]
fn fallback_closes_nested_brackets_in_reverse_order() {
    let truncated = r#"[{"question":"Q","answer":"A","knowledge_points":["k1"#;
    let repaired = repair_truncated_json_array(truncated);
    let parsed = parse_array(&repaired);
    assert_eq!(parsed.len(), 1);
    assert_eq!(strings(&parsed[0]["knowledge_points"]), vec!["k1"]);
}

#[test]
fn complete_json_passes_through_unchanged() {
    let complete = r#"[{"question":"Q1","answer":"A1","knowledge_points":["k1"]}]"#;
    let result = repair_truncated_json_array(complete);
    let parsed = parse_array(&result);
    assert_eq!(parsed.len(), 1);
}

#[test]
fn truncate_for_error_short_ascii() {
    assert_eq!(truncate_for_error("hello", 10), "hello");
}

#[test]
fn truncate_for_error_truncates_ascii() {
    assert_eq!(truncate_for_error("hello world", 5), "hello…");
}

#[test]
fn truncate_for_error_chinese_no_panic() {
    let chinese = "这是一段中文内容用来测试截断";
    let result = truncate_for_error(chinese, 5);
    assert_eq!(result, "这是一段中…");
}

#[test]
fn truncate_for_error_mixed_chars() {
    let mixed = "你好abc世界def";
    let result = truncate_for_error(mixed, 5);
    assert_eq!(result, "你好abc…");
}

#[test]
fn truncate_for_error_exact_length() {
    let s = "测试";
    assert_eq!(truncate_for_error(s, 2), "测试");
}

#[test]
fn truncate_for_error_empty() {
    assert_eq!(truncate_for_error("", 5), "");
}

#[test]
fn extract_questions_array_from_valid_wrapper() {
    let json = r#"{"questions":[{"question":"Q","answer":"A","knowledge_points":["k"]}]}"#;
    let extracted = extract_questions_array_from_wrapper(json).unwrap();
    let parsed = parse_array(&extracted);
    assert_eq!(parsed.len(), 1);
}

#[test]
fn extract_questions_array_from_non_wrapper() {
    let json = r#"[{"question":"Q","answer":"A","knowledge_points":["k"]}]"#;
    assert!(extract_questions_array_from_wrapper(json).is_none());
}

#[test]
fn extract_questions_array_from_invalid_json() {
    assert!(extract_questions_array_from_wrapper("not json").is_none());
}

#[test]
fn extract_questions_array_from_incomplete_wrapper_salvage() {
    let json = r#"{"questions":[{"question":"Q1","answer":"A1","knowledge_points":["k1"]},{"question":"Q2 long"#;
    let extracted = extract_questions_array_from_wrapper(json)
        .expect("should salvage questions array fragment");
    let repaired = repair_truncated_json_array(&extracted);
    let parsed = parse_array(&repaired);
    assert_eq!(parsed.len(), 1);
    assert_eq!(parsed[0]["question"], "Q1");
}

#[test]
fn diagnose_object_wrapper_truncated_in_string() {
    let json = r#"{"questions":[{"question":"一道很长的题目内容被截断到这里就"#;
    let d = diagnose_practice_json_error(json);
    assert_eq!(d.format_guess, "object_wrapper");
    assert!(d.tags.contains(&"truncated_in_string"));
    assert!(d.tags.contains(&"unclosed_object"));
    assert!(d.tags.contains(&"unclosed_array"));
    assert_eq!(d.complete_questions, 0);
    let msg = format_diagnosis(json);
    assert!(msg.contains("truncated_in_string"), "msg: {}", msg);
    assert!(msg.contains("object_wrapper"), "msg: {}", msg);
}

#[test]
fn diagnose_root_array_trailing_backslash() {
    let json = r#"[{"question":"trail\"#;
    let d = diagnose_practice_json_error(json);
    assert_eq!(d.format_guess, "root_array");
    assert!(d.tags.contains(&"trailing_backslash"), "tags: {:?}", d.tags);
    assert!(d.tags.contains(&"truncated_in_string"), "tags: {:?}", d.tags);
    let msg = format_diagnosis(json);
    assert!(msg.contains("trailing_backslash"), "msg: {}", msg);
}

#[test]
fn diagnose_wrapper_with_complete_and_partial() {
    let json = r#"{"questions":[{"question":"Q1","answer":"A1","knowledge_points":["k1"]},{"question":"Q2 is long an"#;
    let d = diagnose_practice_json_error(json);
    assert_eq!(d.format_guess, "object_wrapper");
    assert_eq!(d.complete_questions, 1);
    assert!(d.tags.contains(&"truncated_in_string"));
    assert!(d.tags.contains(&"wrapper_incomplete"));
    let msg = format_diagnosis(json);
    assert!(msg.contains("已完成题目数=1"), "msg: {}", msg);
}

#[test]
fn diagnose_wrapper_ok_array_incomplete() {
    let json = r#"{"questions": [{"question":"Q1","answer":"A1","knowledge_points":["k1"]},{"question":"Q2"#;
    let d = diagnose_practice_json_error(json);
    assert_eq!(d.format_guess, "object_wrapper");
    assert!(d.tags.contains(&"unclosed_object") || d.tags.contains(&"truncated_in_string"));
}

#[test]
fn diagnose_root_array_with_complete_objects() {
    let json = r#"[{"question":"Q1","answer":"A1","knowledge_points":["k1"]},{"question":"Q2","answer":"A2","knowledge_points":["k2"]}"#;
    let d = diagnose_practice_json_error(json);
    assert_eq!(d.format_guess, "root_array");
    assert_eq!(d.complete_questions, 2);
    assert!(d.tags.contains(&"unclosed_array"));
    let msg = format_diagnosis(json);
    assert!(msg.contains("已完成题目数=2"), "msg: {}", msg);
}

#[test]
fn diagnose_tail_context_shows_end() {
    let long = format!(
        "{{\"questions\":[{}]}}",
        r#"{"question":"x","answer":"y","knowledge_points":["z"]},"#.repeat(50)
    );
    let json = &long[..long.len() - 20];
    let d = diagnose_practice_json_error(json);
    assert!(d.tail_context.len() <= 130);
}

#[test]
fn diagnose_serde_location_present() {
    let json = r#"{"questions": [BAD]}"#;
    let d = diagnose_practice_json_error(json);
    assert!(d.serde_location.is_some(), "should have serde error info");
    let msg = format_diagnosis(json);
    assert!(msg.contains("serde错误"), "msg: {}", msg);
}

#[test]
fn tail_chars_basic() {
    assert_eq!(tail_chars("hello", 3), "…llo");
    assert_eq!(tail_chars("hi", 5), "hi");
    assert_eq!(tail_chars("你好世界", 2), "…世界");
}
