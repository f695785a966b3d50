use vstd::prelude::*;

use crate::content::CompleteLessonContent;
use crate::document::{lesson_mapped, map_lesson, Lesson};
use crate::errors::AgentError;
use crate::mapping::{class_code, class_code_of};

verus! {

/// The assembled input of one render call: the lessons flattened into
/// the document model, plus the metadata the template reads — the
/// subject name, the numeric-string year code, and the mode flag
/// ("pupil" or "teacher") that selects answer-key visibility. The
/// watermark image is a raw asset the runtime supplies beside it.
pub struct TemplateInput {
    pub subject_name: String,
    pub class_year: String,
    pub mode: String,
    pub lessons: Vec<Lesson>,
}

/// Assembles the render input: every lesson flattened, the class
/// string resolved to the template's year code, subject and mode
/// passed through.
pub fn build_template_input(
    lessons: Vec<CompleteLessonContent>,
    subject_name: String,
    class_year: &str,
    mode: String,
) -> (t: TemplateInput)
    ensures
        t.subject_name == subject_name,
        t.class_year@ == class_code_of(class_year@),
        t.mode == mode,
        t.lessons@.len() == lessons@.len(),
        forall|i: int|
            0 <= i < lessons@.len() ==> lesson_mapped(lessons@[i], #[trigger] t.lessons@[i]),
{
    let mut rest = lessons;
    let mut out: Vec<Lesson> = Vec::new();
    while rest.len() > 0
        invariant
            out@.len() + rest@.len() == lessons@.len(),
            rest@ == lessons@.subrange(out@.len() as int, lessons@.len() as int),
            forall|i: int| 0 <= i < out@.len() ==> lesson_mapped(lessons@[i], #[trigger] out@[i]),
        decreases rest@.len(),
    {
        let x = rest.remove(0);
        out.push(map_lesson(x));
        proof {
            assert(rest@ =~= lessons@.subrange(out@.len() as int, lessons@.len() as int));
        }
    }
    TemplateInput { subject_name, class_year: class_code(class_year), mode, lessons: out }
}

/// What one render invocation produces at the operation boundary: the
/// rendered document bytes, or a plain-text payload carrying a
/// failure's message. Failure is itself a valid, observable reply —
/// the operation always responds.
pub enum RenderOutput {
    Pdf(Vec<u8>),
    Text(String),
}

impl RenderOutput {
    /// The content type the reply carries.
    pub fn content_type(&self) -> (r: String)
        ensures
            self is Pdf ==> r@ == "application/pdf"@,
            self is Text ==> r@ == "text/plain"@,
    {
        match self {
            RenderOutput::Pdf(_) => String::from_str("application/pdf"),
            RenderOutput::Text(_) => String::from_str("text/plain"),
        }
    }
}

/// Folds the outcome of a render into the operation's reply: rendered
/// bytes stay a document; any failure — an unreadable asset, a
/// compilation error, a conversion error — becomes a plain-text
/// payload carrying exactly the failure's message.
pub fn render_reply(outcome: Result<Vec<u8>, AgentError>) -> (out: RenderOutput)
    ensures
        (outcome matches Ok(bytes) ==> out == RenderOutput::Pdf(bytes)),
        (outcome matches Err(e) ==> out == RenderOutput::Text(e.message)),
{
    match outcome {
        Ok(bytes) => RenderOutput::Pdf(bytes),
        Err(e) => RenderOutput::Text(e.message),
    }
}

} // verus!
