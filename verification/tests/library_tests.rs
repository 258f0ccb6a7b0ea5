use error_book::analysis::analyzer::{
    analysed_by_current_pipeline, detect_media_type, pipeline_step, prompt_reminder, AttemptRecord,
    PipelineAction, PipelineStage, PIPELINE_VERSION, RETRY_JSON_REMINDER,
};
use error_book::analysis::parser::{extract_json_from_llm_output, extract_markdown_and_json};
use error_book::backfill::engine::{
    backfill_options, batch_quota, continue_after_batch, stops_after, tally, BackfillScope,
    BackfillTask, RecordOutcome,
};
use error_book::backfill::error_records::{needs_upgrade, upgrade_v1_to_v2};
use error_book::db::models::BackfillStats;
use error_book::llm::client::{
    api_error, backoff_delay_ms, classify_transport_error, collapse_system_messages,
    extract_google_chat_text, first_choice_content, gives_up, map_google_role, should_retry,
    truncate_body, ChatMessage, ChatPart, GoogleCandidate, GoogleChatResponse, GoogleContent,
    GooglePart, TransportFailure,
};
use error_book::config::RetryConfig;
use error_book::mcp::server::{ListParams, PracticeParams, SearchParams, SummaryParams};
use error_book::practice::planner::{
    PracticeDependencyMode, PracticeImageRole, PracticeImageType,
};
use error_book::storage::image::join_path;
use error_book::summary::image_generator::{
    download_retry_delay_ms, extension_from_mime_type, extract_gemini_image_prediction,
    format_error_chain, is_download_retryable_status, is_retryable_status_error,
    openai_output_format_from_mime_type, openai_size_from_aspect_ratio, truncate_str,
    GoogleImageCandidate, GoogleImagePart, GoogleInlineData,
};

fn text_of(m: &ChatMessage) -> Vec<String> {
    m.parts
        .iter()
        .map(|p| match p {
            ChatPart::Text(t) => t.clone(),
            ChatPart::Image { .. } => "<image>".to_string(),
        })
        .collect()
}

// ── the pipeline state machine ──────────────────────────────────────

#[test]
fn pipeline_advances_through_the_three_stages() {
    let (rec, act) = pipeline_step(PipelineStage::VisionRecognition, 1, true);
    assert_eq!(rec, Some(AttemptRecord { attempt: 1, retried_for_parse_failure: false }));
    assert_eq!(act, PipelineAction::Advance(PipelineStage::StructuredExtraction));
    let (_, act) = pipeline_step(PipelineStage::StructuredExtraction, 1, true);
    assert_eq!(act, PipelineAction::Advance(PipelineStage::PedagogicalAnalysis));
    let (_, act) = pipeline_step(PipelineStage::PedagogicalAnalysis, 1, true);
    assert_eq!(act, PipelineAction::Finish);
}

#[test]
fn pipeline_retries_once_then_falls_back() {
    let (rec, act) = pipeline_step(PipelineStage::StructuredExtraction, 1, false);
    assert_eq!(rec, Some(AttemptRecord { attempt: 1, retried_for_parse_failure: true }));
    assert_eq!(act, PipelineAction::Retry(PipelineStage::StructuredExtraction));
    let (rec, act) = pipeline_step(PipelineStage::StructuredExtraction, 2, true);
    assert_eq!(rec, Some(AttemptRecord { attempt: 2, retried_for_parse_failure: true }));
    assert_eq!(act, PipelineAction::Advance(PipelineStage::PedagogicalAnalysis));
    let (rec, act) = pipeline_step(PipelineStage::StructuredExtraction, 2, false);
    assert_eq!(rec, None);
    assert_eq!(act, PipelineAction::FallBack);
}

#[test]
fn pipeline_stage_names_and_reminder() {
    assert_eq!(PipelineStage::VisionRecognition.raw_artifact_stage(), "vision_recognition_raw");
    assert_eq!(
        PipelineStage::PedagogicalAnalysis.parsed_artifact_stage(),
        "pedagogical_analysis_parsed"
    );
    assert_eq!(PipelineStage::StructuredExtraction.trace_name(), "structured_extraction");
    assert_eq!(prompt_reminder(1), None);
    assert_eq!(prompt_reminder(2), Some(RETRY_JSON_REMINDER));
    assert!(RETRY_JSON_REMINDER.contains("Return ONLY valid JSON"));
}

#[test]
fn media_type_by_extension() {
    assert_eq!(detect_media_type("a/b/photo.jpg"), "image/jpeg");
    assert_eq!(detect_media_type("photo.jpeg"), "image/jpeg");
    assert_eq!(detect_media_type("x.gif"), "image/gif");
    assert_eq!(detect_media_type("x.webp"), "image/webp");
    assert_eq!(detect_media_type("x.png"), "image/png");
    // The extension is compared as written.
    assert_eq!(detect_media_type("x.JPG"), "image/png");
    assert_eq!(detect_media_type("noext"), "image/png");
}

#[test]
fn current_pipeline_check() {
    let some = |s: &str| Some(s.to_string());
    assert!(analysed_by_current_pipeline(&some("选择题"), &some("概念"), &some("易"), &some(PIPELINE_VERSION)));
    assert!(!analysed_by_current_pipeline(&some("选择题"), &some("概念"), &some("易"), &some("v1")));
    assert!(!analysed_by_current_pipeline(&None, &some("概念"), &some("易"), &some(PIPELINE_VERSION)));
}

// ── JSON extraction ──────────────────────────────────────────────────

#[test]
fn json_from_llm_output_prefers_code_block() {
    let raw = "说明\n```json\n{\"a\": 1}\n```\n尾";
    assert_eq!(extract_json_from_llm_output(raw).unwrap(), "{\"a\": 1}");
}

#[test]
fn json_from_llm_output_bare_and_embedded() {
    assert_eq!(extract_json_from_llm_output("  {\"a\": [1, 2]}  ").unwrap(), "{\"a\": [1, 2]}");
    assert_eq!(
        extract_json_from_llm_output("here: {\"k\": \"v\"} done").unwrap(),
        "{\"k\": \"v\"}"
    );
}

#[test]
fn json_from_llm_output_error_quotes_the_input() {
    let err = extract_json_from_llm_output("no json {here").unwrap_err();
    assert!(err.contains("无法从 LLM 输出中提取 JSON"));
    assert!(err.contains("no json {here"));
}

#[test]
fn markdown_and_json_split() {
    let (md, json) = extract_markdown_and_json("# 题目\n```json\n{\"x\":1}\n```").unwrap();
    assert_eq!(md, "# 题目\n");
    assert_eq!(json, "{\"x\":1}");
    let (md, json) = extract_markdown_and_json("前文 {\"x\":2}").unwrap();
    assert_eq!(md, "前文 ");
    assert_eq!(json, "{\"x\":2}");
    assert!(extract_markdown_and_json("nothing").is_err());
}

// ── backfill ─────────────────────────────────────────────────────────

#[test]
fn backfill_scope_round_trip() {
    for s in [BackfillScope::ErrorRecords, BackfillScope::ErrorRecordsAnalysis, BackfillScope::All] {
        assert_eq!(BackfillScope::from_str(s.as_str()), Some(s));
    }
    assert_eq!(BackfillScope::from_str("nope"), None);
}

#[test]
fn backfill_options_from_the_command_line() {
    let o = backfill_options("error-records-analysis", true, Some(100), false).unwrap();
    assert_eq!(o.scope, BackfillScope::ErrorRecordsAnalysis);
    assert!(o.dry_run);
    assert_eq!(o.limit, Some(100));
    assert!(!o.fail_fast);
    let o = backfill_options("all", false, None, true).unwrap();
    assert_eq!(o.scope, BackfillScope::All);
    assert!(o.fail_fast);
    assert_eq!(
        backfill_options("summaries", false, None, false).unwrap_err(),
        "未知的 backfill scope: summaries（可选: error-records, error-records-analysis, all）"
    );
}

#[test]
fn scope_all_runs_only_the_deterministic_upgrade() {
    assert_eq!(BackfillScope::All.task(), BackfillTask::UpgradeErrorRecords);
    assert_eq!(BackfillScope::ErrorRecords.task(), BackfillTask::UpgradeErrorRecords);
    assert_eq!(BackfillScope::ErrorRecordsAnalysis.task(), BackfillTask::ReanalyseErrorRecords);
}

#[test]
fn tally_counts_each_outcome() {
    let mut stats = BackfillStats::default();
    tally(&mut stats, RecordOutcome::Upgraded);
    tally(&mut stats, RecordOutcome::Skipped);
    tally(&mut stats, RecordOutcome::Failed);
    tally(&mut stats, RecordOutcome::Upgraded);
    assert_eq!(stats, BackfillStats { total_scanned: 4, upgraded: 2, skipped: 1, failed: 1 });
}

#[test]
fn limit_bounds_every_batch() {
    assert_eq!(batch_quota(Some(150), 100, 100), Some(50));
    assert_eq!(batch_quota(Some(100), 100, 100), None);
    assert_eq!(batch_quota(None, 1000, 37), Some(37));
    assert!(continue_after_batch(100, 100, Some(150), 100));
    assert!(!continue_after_batch(99, 100, None, 99));
    assert!(!continue_after_batch(100, 100, Some(100), 100));
    assert!(stops_after(RecordOutcome::Failed, true));
    assert!(!stops_after(RecordOutcome::Failed, false));
    assert!(!stops_after(RecordOutcome::Upgraded, true));
}

#[test]
fn upgrade_fills_blank_fields() {
    assert!(needs_upgrade(1));
    assert!(!needs_upgrade(2));
    let r = upgrade_v1_to_v2(&None, &Some("  ".to_string()), "  原题  ");
    assert_eq!(r.new_pipeline_version.as_deref(), Some("legacy-backfill-v1"));
    assert_eq!(r.new_question_markdown_clean.as_deref(), Some("原题"));
    assert!(r.backfilled_question_markdown);
    let r = upgrade_v1_to_v2(&Some("v2".to_string()), &Some("有".to_string()), "原题");
    assert_eq!(r.new_pipeline_version, None);
    assert_eq!(r.new_question_markdown_clean, None);
    assert!(!r.backfilled_question_markdown);
    let r = upgrade_v1_to_v2(&Some(" ".to_string()), &None, "   ");
    assert_eq!(r.new_question_markdown_clean, None);
    assert!(!r.backfilled_question_markdown);
}

// ── model client decisions ───────────────────────────────────────────

#[test]
fn system_messages_fold_into_first_user_message() {
    let msgs = vec![
        ChatMessage::system("规则一"),
        ChatMessage::user_text("问题"),
        ChatMessage::system("规则二"),
        ChatMessage::user_text("追问"),
    ];
    let out = collapse_system_messages(&msgs);
    assert_eq!(out.len(), 2);
    assert_eq!(out[0].role, "user");
    assert_eq!(
        text_of(&out[0]),
        vec![
            "[System Instructions]\n规则一\n规则二\n[End System Instructions]".to_string(),
            "问题".to_string()
        ]
    );
    assert_eq!(text_of(&out[1]), vec!["追问".to_string()]);
}

#[test]
fn system_only_becomes_a_user_message() {
    let out = collapse_system_messages(&[ChatMessage::system("只有规则")]);
    assert_eq!(out.len(), 1);
    assert_eq!(out[0].role, "user");
    assert_eq!(
        text_of(&out[0]),
        vec!["[System Instructions]\n只有规则\n[End System Instructions]".to_string()]
    );
    let plain = vec![ChatMessage::user_text("hi")];
    assert_eq!(text_of(&collapse_system_messages(&plain)[0]), vec!["hi".to_string()]);
}

#[test]
fn google_reply_text() {
    let resp = GoogleChatResponse {
        candidates: vec![GoogleCandidate {
            content: Some(GoogleContent {
                parts: vec![
                    GooglePart { text: Some("第一".to_string()) },
                    GooglePart { text: None },
                    GooglePart { text: Some("第二".to_string()) },
                ],
            }),
            finish_reason: Some("STOP".to_string()),
        }],
    };
    assert_eq!(extract_google_chat_text(resp).unwrap(), "第一\n第二");
    let empty = GoogleChatResponse { candidates: vec![] };
    assert_eq!(extract_google_chat_text(empty).unwrap_err(), "Google Chat API 返回空响应");
    let blank = GoogleChatResponse {
        candidates: vec![GoogleCandidate {
            content: None,
            finish_reason: Some("SAFETY".to_string()),
        }],
    };
    assert_eq!(
        extract_google_chat_text(blank).unwrap_err(),
        "Google Chat API 未返回文本内容，finish_reason=SAFETY"
    );
}

#[test]
fn google_roles_and_body_snippets() {
    assert_eq!(map_google_role("assistant"), "model");
    assert_eq!(map_google_role("user"), "user");
    assert_eq!(map_google_role("system"), "user");
    assert_eq!(truncate_body("短", 5), "短");
    assert_eq!(truncate_body("一二三四五六", 3), "一二三…");
}

#[test]
fn retry_decisions() {
    let retry = RetryConfig::default();
    let e = api_error(503, "busy".to_string(), &retry);
    assert!(e.is_retryable());
    let e2 = api_error(400, "bad".to_string(), &retry);
    assert!(!e2.is_retryable());
    assert!(should_retry(Some(&e)));
    assert!(!should_retry(Some(&e2)));
    assert!(should_retry(None));
    assert!(gives_up(2, 3, true));
    assert!(!gives_up(0, 3, true));
    assert!(gives_up(0, 3, false));
    assert!(first_choice_content(vec![]).is_err());
    assert_eq!(first_choice_content(vec!["a".to_string(), "b".to_string()]).unwrap(), "a");
}

#[test]
fn backoff_doubles_and_caps() {
    assert_eq!(backoff_delay_ms(1000, 30000, 0, 0), 1000);
    assert_eq!(backoff_delay_ms(1000, 30000, 2, 500), 4500);
    assert_eq!(backoff_delay_ms(1000, 30000, 10, 0), 30000);
}

#[test]
fn transport_failure_phase() {
    let none = TransportFailure {
        is_timeout: false,
        is_connect: false,
        is_body: false,
        is_decode: false,
        is_redirect: false,
        is_request: false,
    };
    assert_eq!(classify_transport_error(&none), "unknown");
    assert_eq!(classify_transport_error(&TransportFailure { is_timeout: true, is_connect: true, ..none }), "timeout");
    assert_eq!(classify_transport_error(&TransportFailure { is_decode: true, ..none }), "decode");
}

// ── summary images ───────────────────────────────────────────────────

#[test]
fn image_formats_by_mime_and_ratio() {
    assert_eq!(extension_from_mime_type("image/jpeg"), "jpg");
    assert_eq!(extension_from_mime_type("image/webp"), "webp");
    assert_eq!(extension_from_mime_type("image/gif"), "png");
    assert_eq!(openai_output_format_from_mime_type("image/jpeg"), "jpeg");
    assert_eq!(openai_output_format_from_mime_type("text/plain"), "png");
    assert_eq!(openai_size_from_aspect_ratio("3:4"), "1024x1536");
    assert_eq!(openai_size_from_aspect_ratio("landscape"), "1536x1024");
    assert_eq!(openai_size_from_aspect_ratio("1:1"), "1024x1024");
}

#[test]
fn download_retries() {
    for s in [403u16, 404, 429, 500, 502, 503, 504] {
        assert!(is_download_retryable_status(s));
    }
    assert!(!is_download_retryable_status(200));
    assert!(!is_download_retryable_status(401));
    assert_eq!(download_retry_delay_ms(0, 0), 1000);
    assert_eq!(download_retry_delay_ms(3, 199), 8199);
    assert_eq!(download_retry_delay_ms(9, 5), 16005);
}

#[test]
fn error_chains() {
    let chain = vec!["请求失败".to_string(), "status=503 body".to_string()];
    assert!(is_retryable_status_error(&chain));
    assert_eq!(format_error_chain(&chain), "#0 请求失败 | #1 status=503 body");
    assert!(!is_retryable_status_error(&vec!["status=400".to_string()]));
}

#[test]
fn truncate_str_respects_char_boundaries() {
    assert_eq!(truncate_str("hello", 10), "hello");
    assert_eq!(truncate_str("hello", 3), "hel");
    // "中" is three bytes: four bytes keep one character.
    assert_eq!(truncate_str("中文", 4), "中");
    assert_eq!(truncate_str("中文", 2), "");
}

#[test]
fn gemini_first_inline_image() {
    let cands = vec![
        GoogleImageCandidate { content: None },
        GoogleImageCandidate {
            content: Some(vec![
                GoogleImagePart { text: Some("caption".to_string()), inline_data: None },
                GoogleImagePart {
                    text: None,
                    inline_data: Some(GoogleInlineData {
                        mime_type: Some("image/png".to_string()),
                        data: "QUJD".to_string(),
                    }),
                },
            ]),
        },
    ];
    let p = extract_gemini_image_prediction(&cands).unwrap();
    assert_eq!(p.bytes_base64_encoded.as_deref(), Some("QUJD"));
    assert_eq!(p.mime_type.as_deref(), Some("image/png"));
    let none = vec![GoogleImageCandidate { content: Some(vec![]) }];
    assert_eq!(
        extract_gemini_image_prediction(&none).unwrap_err(),
        "Gemini 图片生成返回中未找到图片数据"
    );
}

// ── tokens, paths, tool defaults ─────────────────────────────────────

#[test]
fn enum_tokens_round_trip() {
    for r in [
        PracticeImageRole::NoImage,
        PracticeImageRole::Decorative,
        PracticeImageRole::Supportive,
        PracticeImageRole::AnswerBearing,
        PracticeImageRole::SourceMaterial,
    ] {
        assert_eq!(PracticeImageRole::from_token(r.as_str()), Some(r));
    }
    for m in [
        PracticeDependencyMode::TextOnly,
        PracticeDependencyMode::RenderFromSpec,
        PracticeDependencyMode::JointPlanned,
        PracticeDependencyMode::ImageFirstFinalizeText,
    ] {
        assert_eq!(PracticeDependencyMode::from_token(m.as_str()), Some(m));
    }
    assert_eq!(
        PracticeImageType::from_token(PracticeImageType::GeometryDiagram.as_str()),
        Some(PracticeImageType::GeometryDiagram)
    );
}

#[test]
fn joined_paths() {
    assert_eq!(join_path("/data/images", "a.png"), "/data/images/a.png");
    assert_eq!(join_path("/data/images/", "a.png"), "/data/images/a.png");
    assert_eq!(join_path("/data", "/abs/a.png"), "/abs/a.png");
}

#[test]
fn tool_defaults() {
    let l = ListParams { subject: None, from: None, to: None, limit: None };
    assert_eq!(l.effective_limit(), 20);
    let l = ListParams { subject: None, from: None, to: None, limit: Some(3) };
    assert_eq!(l.effective_limit(), 3);
    let s = SearchParams { query: "q".to_string(), subject: None, limit: None };
    assert_eq!(s.effective_limit(), 10);
    let p = PracticeParams { summary_id: "s".to_string(), count: None, requirements: None, output_path: None };
    assert_eq!(p.effective_count(), 10);
    let m = SummaryParams { subject: "数学".to_string(), from: "2024-01-01".to_string(), to: "2024-01-07".to_string(), period_type: None };
    assert_eq!(m.effective_period_type(), "week");
}

// ── diagnoses, summaries and downloads ───────────────────────────────

use error_book::analysis::analyzer::{embedding_text, record_grade_level};
use error_book::analysis::parser::{
    diagnose_practice_plan_json, plan_parse_error, PlanItemProbe, PlanJsonProbe, SerdeErrorInfo,
};
use error_book::summary::cascade_delete::{cascade_delete_result, generated_image_files, summary_not_found};
use error_book::summary::generator::{no_records_message, summary_records_text, RecordDigest};
use error_book::summary::image_generator::{
    download_step, image_failure_message, openai_image_source, uses_generate_content,
    DownloadAction, DownloadEvent, OpenAiImageItem, OpenAiImageSource,
};

fn serde_err() -> SerdeErrorInfo {
    SerdeErrorInfo { line: 3, column: 7, message: "invalid type".to_string() }
}

#[test]
fn plan_diagnosis_of_root_array() {
    let d = diagnose_practice_plan_json("[1]", &PlanJsonProbe::Array, &serde_err());
    assert_eq!(
        d,
        "顶层是 root_array，非预期 object_wrapper；serde 错误位置 line=3 column=7 reason=invalid type"
    );
}

#[test]
fn plan_diagnosis_names_the_suspicious_item() {
    let items = vec![
        PlanItemProbe { image_spec_is_string: false, dependency_mode: None, image_role: Some("stem".to_string()), image_type: None },
        PlanItemProbe {
            image_spec_is_string: true,
            dependency_mode: Some("essential".to_string()),
            image_role: Some("answer-bearing".to_string()),
            image_type: Some("table".to_string()),
        },
    ];
    let probe = PlanJsonProbe::Object { has_items: true, items: Some(items) };
    let d = diagnose_practice_plan_json("{}", &probe, &serde_err());
    assert_eq!(
        d,
        "items[1].image_spec 是 string，已支持兼容；若仍失败请检查其它字段；items[1].dependency_mode=essential（可能是不兼容枚举值）；items[1].image_role=answer-bearing（已尝试兼容连字符）；items[1].image_type=table；serde 错误位置 line=3 column=7 reason=invalid type"
    );
    let missing = PlanJsonProbe::Object { has_items: false, items: None };
    assert_eq!(
        diagnose_practice_plan_json("{}", &missing, &serde_err()),
        "缺少 items 字段；serde 错误位置 line=3 column=7 reason=invalid type"
    );
}

#[test]
fn plan_diagnosis_of_invalid_json_shows_the_tail() {
    let d = diagnose_practice_plan_json("{\"items\": [", &PlanJsonProbe::Invalid, &serde_err());
    assert_eq!(d, "serde 错误位置 line=3 column=7 reason=invalid type；尾部上下文={\"items\": [");
    let other = diagnose_practice_plan_json("3", &PlanJsonProbe::Other("3".to_string()), &serde_err());
    assert!(other.starts_with("顶层 JSON 类型异常: 3；"));
    assert_eq!(plan_parse_error("x", "原因"), "练习题规划 JSON 解析失败。原因。原始内容: x");
}

#[test]
fn summary_text_numbers_the_records() {
    let rs = vec![
        RecordDigest {
            classification: "[\"分数\"]".to_string(),
            original_question: "1/2+1/3".to_string(),
            error_reason: "通分错".to_string(),
            suggestions: "先通分".to_string(),
        },
        RecordDigest {
            classification: "[]".to_string(),
            original_question: "q".to_string(),
            error_reason: "r".to_string(),
            suggestions: "s".to_string(),
        },
    ];
    assert_eq!(
        summary_records_text(&rs),
        "=== 错题 1 ===\n知识点: [\"分数\"]\n原题: 1/2+1/3\n错误原因: 通分错\n改进建议: 先通分\n\n=== 错题 2 ===\n知识点: []\n原题: q\n错误原因: r\n改进建议: s"
    );
    assert_eq!(summary_records_text(&vec![]), "");
    assert_eq!(
        no_records_message("2024-01-01", "2024-01-07", "数学"),
        "在 2024-01-01 到 2024-01-07 期间，科目 数学 没有错题记录"
    );
}

#[test]
fn cascade_delete_targets_generated_images_only() {
    let files = generated_image_files("/gen", &vec!["a.png".to_string(), "b/c.png".to_string()]);
    assert_eq!(files, vec!["/gen/a.png".to_string(), "/gen/b/c.png".to_string()]);
    assert_eq!(summary_not_found("s1"), "总结记录不存在: s1");
}

#[test]
fn download_loop_steps() {
    assert_eq!(download_step(0, DownloadEvent::NetworkError), DownloadAction::Retry);
    assert_eq!(download_step(4, DownloadEvent::NetworkError), DownloadAction::GiveUpNetwork);
    assert_eq!(download_step(1, DownloadEvent::Status(404)), DownloadAction::Retry);
    assert_eq!(download_step(4, DownloadEvent::Status(404)), DownloadAction::FailStatus);
    assert_eq!(download_step(0, DownloadEvent::Status(401)), DownloadAction::FailStatus);
    assert_eq!(download_step(0, DownloadEvent::Status(200)), DownloadAction::ReadBody);
}

#[test]
fn openai_image_sources() {
    let items = vec![
        OpenAiImageItem { b64_json: None, url: None },
        OpenAiImageItem { b64_json: None, url: Some("https://x/y.png".to_string()) },
        OpenAiImageItem { b64_json: Some("AAAA".to_string()), url: None },
    ];
    match openai_image_source(&items).unwrap() {
        OpenAiImageSource::Url(u) => assert_eq!(u, "https://x/y.png"),
        OpenAiImageSource::Inline(_) => panic!("expected the URL of the first usable item"),
    }
    assert!(openai_image_source(&vec![]).is_err());
    assert!(uses_generate_content("gemini-2.5-flash-image"));
    assert!(!uses_generate_content("imagen-4.0"));
    let m = image_failure_message("Google", 503, "busy");
    assert_eq!(m, "Google 图片生成失败 (status=503): busy");
    assert!(is_retryable_status_error(&vec![m]));
}

#[test]
fn embedding_text_lines() {
    let t = embedding_text("数学", &vec!["分数".to_string(), "通分".to_string()], "题", "因", "议");
    assert_eq!(t, "科目: 数学\n知识点: 分数、通分\n原题: 题\n原因: 因\n建议: 议");
    assert_eq!(record_grade_level(&None, "三年级"), "三年级");
    assert_eq!(record_grade_level(&Some("五年级".to_string()), "三年级"), "五年级");
}

use error_book::config::{ChatProvider, ResolvedProvider, RoleKind};
use error_book::llm::client::{model_info_for_role, role_settings, ChatSettings, PracticeSchema};

fn settings() -> ChatSettings {
    ChatSettings {
        base_url: "https://a.example/v1".to_string(),
        api_key: "k".to_string(),
        model: "m1".to_string(),
        provider: ChatProvider::Openai,
        retry: RetryConfig::default(),
        connection_close: true,
        disable_compression: true,
        thinking: None,
        openai_no_system_role: false,
        structured_json_output: false,
        structured_json_schema: None,
        max_output_tokens: None,
    }
}

fn resolved(base_url: &str, model: &str, provider: ChatProvider, structured: bool) -> ResolvedProvider {
    ResolvedProvider {
        provider,
        base_url: base_url.to_string(),
        api_key: "k".to_string(),
        model: model.to_string(),
        thinking: None,
        openai_no_system_role: true,
        structured_json_output: structured,
        max_output_tokens: Some(2048),
    }
}

#[test]
fn role_on_own_endpoint_keeps_the_client() {
    let r = resolved("https://a.example/v1", "m1", ChatProvider::Google, true);
    let (model, provider) = model_info_for_role(&settings(), &r);
    assert_eq!((model.as_str(), provider), ("m1", "openai"));
    let s = role_settings(settings(), r, RoleKind::PracticePlanning);
    assert_eq!(s.provider, ChatProvider::Openai);
    assert!(s.structured_json_output);
    assert_eq!(s.structured_json_schema, Some(PracticeSchema::Planning));
    assert!(s.openai_no_system_role);
    assert_eq!(s.max_output_tokens, Some(2048));
}

#[test]
fn role_on_other_endpoint_switches_endpoint() {
    let r = resolved("https://b.example", "m2", ChatProvider::Google, false);
    let (model, provider) = model_info_for_role(&settings(), &r);
    assert_eq!((model.as_str(), provider), ("m2", "google"));
    let s = role_settings(settings(), r, RoleKind::VisionRecognition);
    assert_eq!(s.base_url, "https://b.example");
    assert_eq!(s.model, "m2");
    assert_eq!(s.provider, ChatProvider::Google);
    assert!(!s.structured_json_output);
    assert_eq!(s.structured_json_schema, None);
}

#[test]
fn cascade_delete_reports_its_counts() {
    let r = cascade_delete_result("s1", 2, 3, 1);
    assert_eq!(r.summary_id, "s1");
    assert_eq!(r.deleted_summary_images, 2);
    assert_eq!(r.deleted_practice_sets, 3);
    assert!(r.deleted_summary);
    assert_eq!(r.deleted_generated_image_files, 1);
}

// ── dates, search, stored names, base64, providers ───────────────────

use error_book::cli::commands::{
    parse_calendar_date, search_mode, CalendarDate, Command as CliCommand, SearchMode,
};
use error_book::config::{validate_provider_names, EmbeddingProvider, NamedProviderConfig};
use error_book::storage::encoding::{decode_base64, encode_base64};
use error_book::storage::image::{stored_file_name, stored_image_name};

#[test]
fn parse_date_reads_a_calendar_day() {
    let d = CliCommand::parse_date("2024-03-15").unwrap();
    assert_eq!(d, CalendarDate { year: 2024, month: 3, day: 15 });
    let start = d.start_of_day();
    assert_eq!((start.hour, start.minute, start.second), (0, 0, 0));
    let end = d.end_of_day();
    assert_eq!((end.hour, end.minute, end.second), (23, 59, 59));
    assert_eq!(end.date, d);
}

#[test]
fn parse_date_rejects_other_shapes() {
    let e = CliCommand::parse_date("2024/03/15").unwrap_err();
    assert!(e.starts_with("日期格式错误 (需要 YYYY-MM-DD): "));
    assert!(e.len() > "日期格式错误 (需要 YYYY-MM-DD): ".len());
    assert!(CliCommand::parse_date("2024-02-30").is_err());
    let raw = parse_calendar_date("not a date").unwrap_err();
    assert!(!raw.starts_with("日期格式错误"));
}

#[test]
fn search_mode_follows_the_inputs() {
    let q = Some("分数".to_string());
    let img = Some("a.png".to_string());
    assert_eq!(search_mode(&q, &None, false, false), Ok(SearchMode::Text));
    assert_eq!(search_mode(&q, &None, true, true), Ok(SearchMode::Text));
    assert_eq!(search_mode(&q, &img, false, true), Ok(SearchMode::Image));
    assert_eq!(search_mode(&q, &img, true, true), Ok(SearchMode::Mixed { with_text: true }));
    assert_eq!(search_mode(&None, &img, true, true), Ok(SearchMode::Mixed { with_text: false }));
    assert_eq!(
        search_mode(&Some(String::new()), &img, true, true),
        Ok(SearchMode::Mixed { with_text: false })
    );
    assert_eq!(
        search_mode(&None, &None, true, true),
        Err("搜索需要提供 --query 文本或 --image 图片（或两者同时提供）".to_string())
    );
    assert_eq!(
        search_mode(&q, &img, true, false),
        Err("当前 embedding provider 不支持图片搜索；请将 llm.embedding.provider 设置为 google".to_string())
    );
    assert!(EmbeddingProvider::Google.supports_image_embedding());
    assert!(!EmbeddingProvider::Openai.supports_image_embedding());
}

#[test]
fn stored_names_keep_the_extension() {
    assert_eq!(stored_image_name("id1", "/tmp/photo.jpg"), "id1.jpg");
    assert_eq!(stored_image_name("id1", "/tmp/photo"), "id1.png");
    assert_eq!(stored_file_name("id2", "webp"), "id2.webp");
}

#[test]
fn base64_standard_with_padding() {
    assert_eq!(encode_base64(b"Man"), "TWFu");
    assert_eq!(encode_base64(b"Ma"), "TWE=");
    assert_eq!(encode_base64(b"M"), "TQ==");
    assert_eq!(encode_base64(b""), "");
    assert_eq!(encode_base64(&[0xfb, 0xff]), "+/8=");
    assert_eq!(decode_base64("TWFu"), Some(b"Man".to_vec()));
    assert_eq!(decode_base64("TWE="), Some(b"Ma".to_vec()));
    assert_eq!(decode_base64("TWE"), None);
    assert_eq!(decode_base64("TWF="), None);
    assert_eq!(decode_base64("T@=="), None);
}

fn named(model: &str) -> NamedProviderConfig {
    NamedProviderConfig {
        provider: error_book::config::ChatProvider::Openai,
        base_url: "https://x.example".to_string(),
        api_key: "k".to_string(),
        model: model.to_string(),
        thinking: None,
        thinking_enabled: None,
        reasoning_effort: None,
        openai_no_system_role: None,
        structured_json_output: None,
        max_output_tokens: None,
    }
}

#[test]
fn provider_names_must_be_distinct() {
    let ok = vec![("a".to_string(), named("m1")), ("b".to_string(), named("m2"))];
    assert_eq!(validate_provider_names(&ok), Ok(()));
    let dup = vec![
        ("a".to_string(), named("m1")),
        ("b".to_string(), named("m2")),
        ("a".to_string(), named("m3")),
    ];
    assert_eq!(
        validate_provider_names(&dup),
        Err("llm.providers 中存在重复的 provider 名称: a".to_string())
    );
}

// ── role resolution and embedding checks ─────────────────────────────

use error_book::config::{
    ChatProviderConfig, EmbeddingProviderConfig, HttpConfig, ImageProviderConfig, LlmConfig,
    RoleBindings,
};
use error_book::practice::generator::require_weak_points;

fn llm_config(image: Option<ImageProviderConfig>) -> LlmConfig {
    let mut chat = ChatProviderConfig::default();
    chat.base_url = "https://chat.example".to_string();
    chat.model = "chat-model".to_string();
    LlmConfig {
        chat,
        embedding: EmbeddingProviderConfig::default(),
        image,
        retry: RetryConfig::default(),
        http: HttpConfig::default(),
        providers: vec![("gemini-image".to_string(), named("img-model"))],
        roles: RoleBindings::default(),
    }
}

#[test]
fn image_generation_without_image_section_is_an_error() {
    let llm = llm_config(None);
    assert_eq!(
        llm.resolve_role_provider(RoleKind::ImageGeneration).unwrap_err(),
        "未配置图片生成 provider：请在 [llm.roles] 中绑定 image_generation，或配置 [llm.image]"
    );
    let chat = llm.resolve_role_provider(RoleKind::SummarySynthesis).unwrap();
    assert_eq!(chat.model, "chat-model");
    assert_eq!(chat.base_url, "https://chat.example");
}

#[test]
fn image_generation_uses_a_bound_provider_or_the_image_section() {
    let mut llm = llm_config(None);
    llm.roles.image_generation = Some("gemini-image".to_string());
    assert_eq!(llm.resolve_role_provider(RoleKind::ImageGeneration).unwrap().model, "img-model");
    let mut image = ImageProviderConfig::default();
    image.model = "imagen".to_string();
    let llm = llm_config(Some(image));
    assert_eq!(llm.resolve_role_provider(RoleKind::ImageGeneration).unwrap().model, "imagen");
}

#[test]
fn embedding_provider_checks() {
    assert_eq!(EmbeddingProvider::Google.check_text_embedding(), Ok(()));
    assert_eq!(
        EmbeddingProvider::Openai.check_text_embedding(),
        Err("llm.embedding.provider=openai 暂未实现；当前仅支持 provider=google".to_string())
    );
    assert_eq!(EmbeddingProvider::Google.check_image_embedding(), Ok(()));
    assert_eq!(
        EmbeddingProvider::Openai.check_image_embedding(),
        Err("llm.embedding.provider=openai 目前不支持图片 embedding；请使用 provider=google".to_string())
    );
}

#[test]
fn practice_needs_weak_points() {
    assert_eq!(require_weak_points(&vec!["分数".to_string()]), Ok(()));
    assert_eq!(
        require_weak_points(&Vec::new()),
        Err("总结中没有薄弱知识点，无法生成练习题".to_string())
    );
}

#[test]
fn path_extension_follows_unix_file_names() {
    assert_eq!(stored_image_name("i", "a/b.tar.gz"), "i.gz");
    assert_eq!(stored_image_name("i", ".hidden"), "i.png");
    assert_eq!(stored_image_name("i", "dir/x."), "i.");
    assert_eq!(stored_image_name("i", "a/b.jpg/"), "i.jpg");
    assert_eq!(stored_image_name("i", "a/b.jpg/."), "i.jpg");
    assert_eq!(stored_image_name("i", "a/.."), "i.png");
    assert_eq!(stored_image_name("i", "..jpg"), "i.jpg");
    assert_eq!(stored_image_name("i", "a/...jpg"), "i.jpg");
    assert_eq!(stored_image_name("i", "."), "i.png");
}
