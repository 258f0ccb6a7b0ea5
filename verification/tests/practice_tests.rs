use error_book::analysis::parser::PracticeQuestion;
use error_book::practice::generator::{next_batch_size, select_reference_questions};
use error_book::practice::image_generator::{
    build_fallback_prompt, build_image_prompt, classify_image, extract_image_description,
    strip_image_description, PracticeImageClass,
};
use error_book::practice::planner::{heuristic_plan, PracticeImageSpec, PracticeImageType};

#[test]
fn batch_size_remaining_large() {
    assert_eq!(next_batch_size(10), 1);
}

#[test]
fn batch_size_remaining_exactly_max() {
    assert_eq!(next_batch_size(1), 1);
}

#[test]
fn batch_size_remaining_two_still_one() {
    assert_eq!(next_batch_size(2), 1);
}

#[test]
fn batch_size_remaining_one() {
    assert_eq!(next_batch_size(1), 1);
}

#[test]
fn batch_size_remaining_zero() {
    assert_eq!(next_batch_size(0), 0);
}

#[test]
fn select_reference_prefers_matching_points() {
    let refs = vec![
        "知识点: 应用题\n原题: ...".to_string(),
        "知识点: 阅读理解\n原题: ...".to_string(),
    ];
    let selected = select_reference_questions(&refs, &["阅读理解".to_string()]);
    assert!(selected.contains("阅读理解"));
    assert!(!selected.is_empty());
}

#[test]
fn fallback_prompt_uses_question_metadata() {
    let q = PracticeQuestion {
        question: "观察下图回答问题".to_string(),
        answer: "略".to_string(),
        knowledge_points: vec!["看图表达".to_string()],
        question_form: Some("看图题".to_string()),
        material_type: Some("scene".to_string()),
        requires_image: true,
        image_role: None,
        image_type: None,
        dependency_mode: None,
        image_spec: None,
        image_path: None,
    };
    let prompt = build_fallback_prompt(&q);
    assert!(prompt.contains("看图题"));
    assert!(prompt.contains("观察下图回答问题"));
}

#[test]
fn classifies_precise_diagram_types() {
    let q = PracticeQuestion {
        question: "根据计数器回答".to_string(),
        answer: "略".to_string(),
        knowledge_points: vec!["万以内数".to_string()],
        question_form: Some("选择题".to_string()),
        material_type: Some("图文结合".to_string()),
        requires_image: true,
        image_role: None,
        image_type: Some(PracticeImageType::GeometryDiagram),
        dependency_mode: None,
        image_spec: None,
        image_path: None,
    };
    assert_eq!(classify_image(&q), PracticeImageClass::Precise);
}

#[test]
fn precise_prompt_contains_clean_teaching_constraints() {
    let q = PracticeQuestion {
        question: "[图片说明：一个计数器，从左到右依次标有千位、百位、十位、个位。千位上有2颗珠子，百位上没有珠子，十位上有3颗珠子，个位上没有珠子。]\n右图计数器上表示的数是（   ）。".to_string(),
        answer: "略".to_string(),
        knowledge_points: vec!["万以内数".to_string()],
        question_form: Some("选择题".to_string()),
        material_type: Some("图文结合".to_string()),
        requires_image: true,
        image_role: None,
        image_type: Some(PracticeImageType::GeometryDiagram),
        dependency_mode: None,
        image_spec: Some(PracticeImageSpec {
            prompt: "一个计数器图示，展示四位数数位状态".to_string(),
            elements: vec!["计数器".to_string(), "千位".to_string()],
            fallback_allowed: true,
        }),
        image_path: None,
    };
    let prompt = build_image_prompt(&q, q.image_spec.as_ref().unwrap());
    assert!(prompt.contains("以“图片说明”为唯一主要绘制依据"));
    assert!(prompt.contains("一个计数器，从左到右依次标有千位、百位、十位、个位"));
    assert!(prompt.contains("练习本横线"));
    assert!(prompt.contains("必须包含元素"));
    assert!(
        !prompt.contains("展示四位数数位状态"),
        "prompt should not include planner freeform description when image description exists: {}",
        prompt
    );
}

#[test]
fn extracts_image_description_from_question() {
    let q = "题干前文\n[图片说明：一个算盘，千位有1颗上珠。]\n后文";
    assert_eq!(extract_image_description(q).as_deref(), Some("一个算盘，千位有1颗上珠。"));
}

#[test]
fn strip_image_description_removes_embedded_block() {
    let q = "题干前文\n[图片说明：一个算盘，千位有1颗上珠。]\n后文";
    let stripped = strip_image_description(q);
    assert!(!stripped.contains("图片说明"));
    assert!(stripped.contains("题干前文"));
    assert!(stripped.contains("后文"));
}

#[test]
fn heuristic_plan_rotates_points() {
    let weak_points = vec!["应用题".to_string(), "数量关系".to_string()];
    let plan = heuristic_plan("数学", "二年级", &weak_points, 3);
    assert_eq!(plan.items.len(), 3);
    assert_eq!(plan.items[0].primary_point, "应用题");
    assert_eq!(plan.items[1].primary_point, "数量关系");
    assert_eq!(plan.items[2].primary_point, "应用题");
}

#[test]
fn heuristic_plan_marks_geometry_as_image_question() {
    let weak_points = vec!["几何图形".to_string()];
    let plan = heuristic_plan("数学", "二年级", &weak_points, 1);
    assert!(plan.items[0].requires_image);
    assert_eq!(plan.items[0].image_type, PracticeImageType::GeometryDiagram);
}
