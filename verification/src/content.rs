use vstd::prelude::*;

verus! {

/// The closed set of grade bands a lesson can be generated for.
#[derive(Clone, Copy, PartialEq, Eq, Structural, Debug)]
pub enum ClassLevel {
    Primary1,
    Primary2,
    Primary3,
    Primary4,
    Primary5,
    Jss1,
    Jss2,
    Jss3,
}

/// The closed set of school terms.
#[derive(Clone, Copy, PartialEq, Eq, Structural, Debug)]
pub enum Term {
    First,
    Second,
    Third,
}

/// One learning objective with its taxonomy level.
pub struct LessonObjective {
    pub objective: String,
    pub taxonomy_level: String,
}

/// The text of a content sub-point: either a plain string or a nested
/// section whose body carries the text. The union is resolved when the
/// lesson is flattened into the document model.
pub enum SubPointText {
    Plain(String),
    Nested(ContentSection),
}

/// One numbered sub-point under a content section.
pub struct ContentSubPoint {
    pub sub_number: String,
    pub text: SubPointText,
}

/// One section of the lesson body. `sub_points` is optional on the
/// generation side; the document model replaces an absent sequence with
/// an empty one.
pub struct ContentSection {
    pub header: String,
    pub body: String,
    pub sub_points: Option<Vec<ContentSubPoint>>,
}

/// One step of the lesson delivery plan.
pub struct LessonStep {
    pub step_number: i32,
    pub phase: String,
    pub duration_mins: i32,
    pub teacher_actions: String,
    pub pupil_activities: String,
    pub teaching_strategy: String,
    pub assessment: Option<String>,
}

/// One multiple-choice question: a stem, three options, the correct
/// option, and an explanation.
pub struct McqQuestion {
    pub question: String,
    pub option_a: String,
    pub option_b: String,
    pub option_c: String,
    pub correct_answer: String,
    pub explanation: String,
}

/// One theoretical question with ordered sub-parts, a model answer and
/// a marking scheme.
pub struct TheoreticalQuestion {
    pub question: String,
    pub parts: Vec<String>,
    pub model_answer: String,
    pub marking_scheme: String,
}

/// The full structured lesson returned by the generation service for
/// one topic. Produced once per generation call and immutable: it is
/// either persisted to the store or flattened for rendering.
pub struct CompleteLessonContent {
    pub age_range: String,
    pub class_level: ClassLevel,
    pub subject: String,
    pub week: i32,
    pub term: Term,
    pub topic_title: String,
    pub duration_mins: i32,
    pub introduction: String,
    pub objectives: Vec<LessonObjective>,
    pub materials: Vec<String>,
    pub prior_knowledge: Vec<String>,
    pub content_sections: Vec<ContentSection>,
    pub lesson_steps: Vec<LessonStep>,
    pub key_points: Vec<String>,
    pub mcq_questions: Vec<McqQuestion>,
    pub theoretical_questions: Vec<TheoreticalQuestion>,
    pub conclusion: String,
    pub teacher_tips: String,
    pub remediation: String,
    pub formative_assessment: String,
    pub summative_assessment: String,
    pub extension_activities: Vec<String>,
    pub primary_sources: Vec<String>,
    pub success_criteria: Vec<String>,
    pub textbook_references: Vec<String>,
}

/// The generation service's request shape for one topic: the topic's
/// free-text fields together with the class level and term resolved to
/// their closed enumerations.
#[derive(Debug)]
pub struct GenerateLessonRequest {
    pub age_group: String,
    pub class_level: ClassLevel,
    pub subject: String,
    pub term: Term,
    pub topic: String,
    pub week: i32,
}

} // verus!
