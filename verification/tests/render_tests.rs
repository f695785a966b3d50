use lesson_pipeline::content::{ClassLevel, CompleteLessonContent, Term};
use lesson_pipeline::errors::AgentError;
use lesson_pipeline::render::{build_template_input, render_reply, RenderOutput};

fn small_content(class_level: ClassLevel) -> CompleteLessonContent {
    CompleteLessonContent {
        age_range: "8-9".to_string(),
        class_level,
        subject: "English".to_string(),
        week: 1,
        term: Term::First,
        topic_title: "Nouns".to_string(),
        duration_mins: 35,
        introduction: "Naming words".to_string(),
        objectives: vec![],
        materials: vec![],
        prior_knowledge: vec![],
        content_sections: vec![],
        lesson_steps: vec![],
        key_points: vec![],
        mcq_questions: vec![],
        theoretical_questions: vec![],
        conclusion: "Nouns name things".to_string(),
        teacher_tips: "Collect examples".to_string(),
        remediation: "More examples".to_string(),
        formative_assessment: "Name three nouns".to_string(),
        summative_assessment: "Quiz".to_string(),
        extension_activities: vec![],
        primary_sources: vec![],
        success_criteria: vec![],
        textbook_references: vec![],
    }
}

#[test]
fn successful_render_replies_with_a_document() {
    let out = render_reply(Ok(vec![0x25, 0x50, 0x44, 0x46]));
    assert_eq!(out.content_type(), "application/pdf");
    match out {
        RenderOutput::Pdf(bytes) => assert!(bytes.len() > 0),
        RenderOutput::Text(_) => panic!("expected a document"),
    }
}

#[test]
fn asset_read_failure_replies_with_plain_text_message() {
    let out = render_reply(Err(AgentError {
        message: "Could not read template file: not found".to_string(),
        code: "TEMPLATE_READ_ERROR".to_string(),
    }));
    assert_eq!(out.content_type(), "text/plain");
    match out {
        RenderOutput::Text(msg) => {
            assert!(msg.contains("Could not read template file"));
        },
        RenderOutput::Pdf(_) => panic!("expected a plain-text reply"),
    }
}

#[test]
fn template_input_carries_year_code_mode_and_mapped_lessons() {
    let t = build_template_input(
        vec![small_content(ClassLevel::Primary3)],
        "English".to_string(),
        "PRIMARY_3",
        "teacher".to_string(),
    );
    assert_eq!(t.subject_name, "English");
    assert_eq!(t.class_year, "3");
    assert_eq!(t.mode, "teacher");
    assert_eq!(t.lessons.len(), 1);
    assert_eq!(t.lessons[0].class_level, "PRIMARY_3");
    assert_eq!(t.lessons[0].term, "FIRST");
    assert_eq!(t.lessons[0].topic_title, "Nouns");
}

#[test]
fn template_input_year_code_is_empty_outside_primary_bands() {
    let t = build_template_input(
        vec![small_content(ClassLevel::Jss1)],
        "English".to_string(),
        "JSS_1",
        "pupil".to_string(),
    );
    assert_eq!(t.class_year, "");
    assert_eq!(t.lessons[0].class_level, "JSS_1");
}
