use vstd::prelude::*;

use crate::content::{
    CompleteLessonContent, ContentSection, ContentSubPoint, LessonObjective, LessonStep,
    McqQuestion, SubPointText, TheoreticalQuestion,
};
use crate::mapping::{
    class_level_display, class_level_to_string, lemma_class_display_injective,
    lemma_term_display_injective, term_display, term_to_string,
};

verus! {

/// One learning objective in the document model.
pub struct DocObjective {
    pub objective: String,
    pub taxonomy_level: String,
}

/// One sub-point in the document model: its number and the resolved
/// scalar text.
pub struct DocSubPoint {
    pub sub_number: String,
    pub text: String,
}

/// One content section in the document model. `sub_points` is always a
/// sequence: an absent source sequence becomes an empty one.
pub struct DocContentSection {
    pub header: String,
    pub body: String,
    pub sub_points: Vec<DocSubPoint>,
}

/// One lesson step in the document model. `assessment` is always a
/// string: an absent source note becomes the empty string.
pub struct DocLessonStep {
    pub step_number: i32,
    pub phase: String,
    pub duration_mins: i32,
    pub teacher_actions: String,
    pub pupil_activities: String,
    pub teaching_strategy: String,
    pub assessment: String,
}

/// One multiple-choice question in the document model.
pub struct DocMcqQuestion {
    pub question: String,
    pub option_a: String,
    pub option_b: String,
    pub option_c: String,
    pub correct_answer: String,
    pub explanation: String,
}

/// One theoretical question in the document model.
pub struct DocTheoreticalQuestion {
    pub question: String,
    pub parts: Vec<String>,
    pub model_answer: String,
    pub marking_scheme: String,
}

/// The flat, render-ready projection of one lesson: every enumeration
/// is resolved to its display string, every union to a scalar, every
/// optional container to a possibly empty one. The rendering engine
/// has no handling for absent fields, so none remain.
pub struct Lesson {
    pub age_range: String,
    pub class_level: String,
    pub subject: String,
    pub week: i32,
    pub term: String,
    pub topic_title: String,
    pub duration_mins: i32,
    pub introduction: String,
    pub objectives: Vec<DocObjective>,
    pub materials: Vec<String>,
    pub prior_knowledge: Vec<String>,
    pub content_sections: Vec<DocContentSection>,
    pub lesson_steps: Vec<DocLessonStep>,
    pub key_points: Vec<String>,
    pub mcq_questions: Vec<DocMcqQuestion>,
    pub theoretical_questions: Vec<DocTheoreticalQuestion>,
    pub conclusion: String,
    pub teacher_tips: String,
    pub remediation: String,
    pub formative_assessment: String,
    pub summative_assessment: String,
    pub extension_activities: Vec<String>,
    pub primary_sources: Vec<String>,
    pub success_criteria: Vec<String>,
    pub textbook_references: Vec<String>,
}

/// The scalar text the document model carries for a sub-point's text
/// union: the string itself for a plain variant, the nested section's
/// body otherwise.
pub open spec fn sub_point_text_resolved(t: SubPointText, s: String) -> bool {
    match t {
        SubPointText::Plain(p) => s == p,
        SubPointText::Nested(sec) => s == sec.body,
    }
}

/// How one sub-point appears in the document model.
pub open spec fn sub_point_mapped(sp: ContentSubPoint, d: DocSubPoint) -> bool {
    &&& d.sub_number == sp.sub_number
    &&& sub_point_text_resolved(sp.text, d.text)
}

/// How one content section appears in the document model: fields kept,
/// an absent sub-point sequence replaced by an empty one.
pub open spec fn section_mapped(cs: ContentSection, d: DocContentSection) -> bool {
    &&& d.header == cs.header
    &&& d.body == cs.body
    &&& match cs.sub_points {
        Some(sps) => d.sub_points@.len() == sps@.len() && (forall|i: int|
            0 <= i < sps@.len() ==> sub_point_mapped(sps@[i], #[trigger] d.sub_points@[i])),
        None => d.sub_points@.len() == 0,
    }
}

/// How one objective appears in the document model.
pub open spec fn objective_mapped(o: LessonObjective, d: DocObjective) -> bool {
    &&& d.objective == o.objective
    &&& d.taxonomy_level == o.taxonomy_level
}

/// How one lesson step appears in the document model: fields kept, an
/// absent assessment note replaced by the empty string.
pub open spec fn step_mapped(s: LessonStep, d: DocLessonStep) -> bool {
    &&& d.step_number == s.step_number
    &&& d.phase == s.phase
    &&& d.duration_mins == s.duration_mins
    &&& d.teacher_actions == s.teacher_actions
    &&& d.pupil_activities == s.pupil_activities
    &&& d.teaching_strategy == s.teaching_strategy
    &&& match s.assessment {
        Some(a) => d.assessment == a,
        None => d.assessment@ == Seq::<char>::empty(),
    }
}

/// How one multiple-choice question appears in the document model.
pub open spec fn mcq_mapped(q: McqQuestion, d: DocMcqQuestion) -> bool {
    &&& d.question == q.question
    &&& d.option_a == q.option_a
    &&& d.option_b == q.option_b
    &&& d.option_c == q.option_c
    &&& d.correct_answer == q.correct_answer
    &&& d.explanation == q.explanation
}

/// How one theoretical question appears in the document model.
pub open spec fn theoretical_mapped(q: TheoreticalQuestion, d: DocTheoreticalQuestion) -> bool {
    &&& d.question == q.question
    &&& d.parts == q.parts
    &&& d.model_answer == q.model_answer
    &&& d.marking_scheme == q.marking_scheme
}

/// How a whole lesson appears in the document model: every source
/// field appears exactly once, transformed as the section predicates
/// say; the class level and term appear as their display strings.
pub open spec fn lesson_mapped(c: CompleteLessonContent, l: Lesson) -> bool {
    &&& l.age_range == c.age_range
    &&& l.class_level@ == class_level_display(c.class_level)
    &&& l.subject == c.subject
    &&& l.week == c.week
    &&& l.term@ == term_display(c.term)
    &&& l.topic_title == c.topic_title
    &&& l.duration_mins == c.duration_mins
    &&& l.introduction == c.introduction
    &&& l.objectives@.len() == c.objectives@.len()
    &&& forall|i: int|
        0 <= i < c.objectives@.len() ==> objective_mapped(
            c.objectives@[i],
            #[trigger] l.objectives@[i],
        )
    &&& l.materials == c.materials
    &&& l.prior_knowledge == c.prior_knowledge
    &&& l.content_sections@.len() == c.content_sections@.len()
    &&& forall|i: int|
        0 <= i < c.content_sections@.len() ==> section_mapped(
            c.content_sections@[i],
            #[trigger] l.content_sections@[i],
        )
    &&& l.lesson_steps@.len() == c.lesson_steps@.len()
    &&& forall|i: int|
        0 <= i < c.lesson_steps@.len() ==> step_mapped(
            c.lesson_steps@[i],
            #[trigger] l.lesson_steps@[i],
        )
    &&& l.key_points == c.key_points
    &&& l.mcq_questions@.len() == c.mcq_questions@.len()
    &&& forall|i: int|
        0 <= i < c.mcq_questions@.len() ==> mcq_mapped(
            c.mcq_questions@[i],
            #[trigger] l.mcq_questions@[i],
        )
    &&& l.theoretical_questions@.len() == c.theoretical_questions@.len()
    &&& forall|i: int|
        0 <= i < c.theoretical_questions@.len() ==> theoretical_mapped(
            c.theoretical_questions@[i],
            #[trigger] l.theoretical_questions@[i],
        )
    &&& l.conclusion == c.conclusion
    &&& l.teacher_tips == c.teacher_tips
    &&& l.remediation == c.remediation
    &&& l.formative_assessment == c.formative_assessment
    &&& l.summative_assessment == c.summative_assessment
    &&& l.extension_activities == c.extension_activities
    &&& l.primary_sources == c.primary_sources
    &&& l.success_criteria == c.success_criteria
    &&& l.textbook_references == c.textbook_references
}

/// Resolves a sub-point's text union to its scalar text.
pub fn extract_text_from_subpoint(text: SubPointText) -> (s: String)
    ensures
        sub_point_text_resolved(text, s),
{
    match text {
        SubPointText::Plain(p) => p,
        SubPointText::Nested(sec) => sec.body,
    }
}

/// Maps one sub-point into the document model.
fn map_sub_point(sp: ContentSubPoint) -> (d: DocSubPoint)
    ensures
        sub_point_mapped(sp, d),
{
    let ContentSubPoint { sub_number, text } = sp;
    DocSubPoint { sub_number, text: extract_text_from_subpoint(text) }
}

/// Maps a sequence of sub-points in order.
fn map_sub_points(v: Vec<ContentSubPoint>) -> (r: Vec<DocSubPoint>)
    ensures
        r@.len() == v@.len(),
        forall|i: int| 0 <= i < v@.len() ==> sub_point_mapped(v@[i], #[trigger] r@[i]),
{
    let mut rest = v;
    let mut out: Vec<DocSubPoint> = Vec::new();
    while rest.len() > 0
        invariant
            out@.len() + rest@.len() == v@.len(),
            rest@ == v@.subrange(out@.len() as int, v@.len() as int),
            forall|i: int| 0 <= i < out@.len() ==> sub_point_mapped(v@[i], #[trigger] out@[i]),
        decreases rest@.len(),
    {
        let x = rest.remove(0);
        out.push(map_sub_point(x));
        proof {
            assert(rest@ =~= v@.subrange(out@.len() as int, v@.len() as int));
        }
    }
    out
}

/// Maps one content section, replacing an absent sub-point sequence
/// with an empty one.
fn map_section(cs: ContentSection) -> (d: DocContentSection)
    ensures
        section_mapped(cs, d),
{
    let ContentSection { header, body, sub_points } = cs;
    let mapped = match sub_points {
        Some(sps) => map_sub_points(sps),
        None => Vec::new(),
    };
    DocContentSection { header, body, sub_points: mapped }
}

/// Maps a sequence of content sections in order.
fn map_sections(v: Vec<ContentSection>) -> (r: Vec<DocContentSection>)
    ensures
        r@.len() == v@.len(),
        forall|i: int| 0 <= i < v@.len() ==> section_mapped(v@[i], #[trigger] r@[i]),
{
    let mut rest = v;
    let mut out: Vec<DocContentSection> = Vec::new();
    while rest.len() > 0
        invariant
            out@.len() + rest@.len() == v@.len(),
            rest@ == v@.subrange(out@.len() as int, v@.len() as int),
            forall|i: int| 0 <= i < out@.len() ==> section_mapped(v@[i], #[trigger] out@[i]),
        decreases rest@.len(),
    {
        let x = rest.remove(0);
        out.push(map_section(x));
        proof {
            assert(rest@ =~= v@.subrange(out@.len() as int, v@.len() as int));
        }
    }
    out
}

/// Maps a sequence of objectives in order.
fn map_objectives(v: Vec<LessonObjective>) -> (r: Vec<DocObjective>)
    ensures
        r@.len() == v@.len(),
        forall|i: int| 0 <= i < v@.len() ==> objective_mapped(v@[i], #[trigger] r@[i]),
{
    let mut rest = v;
    let mut out: Vec<DocObjective> = Vec::new();
    while rest.len() > 0
        invariant
            out@.len() + rest@.len() == v@.len(),
            rest@ == v@.subrange(out@.len() as int, v@.len() as int),
            forall|i: int| 0 <= i < out@.len() ==> objective_mapped(v@[i], #[trigger] out@[i]),
        decreases rest@.len(),
    {
        let x = rest.remove(0);
        let LessonObjective { objective, taxonomy_level } = x;
        out.push(DocObjective { objective, taxonomy_level });
        proof {
            assert(rest@ =~= v@.subrange(out@.len() as int, v@.len() as int));
        }
    }
    out
}

/// Maps a sequence of lesson steps in order, replacing an absent
/// assessment note with the empty string.
fn map_steps(v: Vec<LessonStep>) -> (r: Vec<DocLessonStep>)
    ensures
        r@.len() == v@.len(),
        forall|i: int| 0 <= i < v@.len() ==> step_mapped(v@[i], #[trigger] r@[i]),
{
    let mut rest = v;
    let mut out: Vec<DocLessonStep> = Vec::new();
    while rest.len() > 0
        invariant
            out@.len() + rest@.len() == v@.len(),
            rest@ == v@.subrange(out@.len() as int, v@.len() as int),
            forall|i: int| 0 <= i < out@.len() ==> step_mapped(v@[i], #[trigger] out@[i]),
        decreases rest@.len(),
    {
        let x = rest.remove(0);
        let LessonStep {
            step_number,
            phase,
            duration_mins,
            teacher_actions,
            pupil_activities,
            teaching_strategy,
            assessment,
        } = x;
        let assessment_text = match assessment {
            Some(a) => a,
            None => String::new(),
        };
        out.push(DocLessonStep {
            step_number,
            phase,
            duration_mins,
            teacher_actions,
            pupil_activities,
            teaching_strategy,
            assessment: assessment_text,
        });
        proof {
            assert(rest@ =~= v@.subrange(out@.len() as int, v@.len() as int));
        }
    }
    out
}

/// Maps a sequence of multiple-choice questions in order.
fn map_mcqs(v: Vec<McqQuestion>) -> (r: Vec<DocMcqQuestion>)
    ensures
        r@.len() == v@.len(),
        forall|i: int| 0 <= i < v@.len() ==> mcq_mapped(v@[i], #[trigger] r@[i]),
{
    let mut rest = v;
    let mut out: Vec<DocMcqQuestion> = Vec::new();
    while rest.len() > 0
        invariant
            out@.len() + rest@.len() == v@.len(),
            rest@ == v@.subrange(out@.len() as int, v@.len() as int),
            forall|i: int| 0 <= i < out@.len() ==> mcq_mapped(v@[i], #[trigger] out@[i]),
        decreases rest@.len(),
    {
        let x = rest.remove(0);
        let McqQuestion { question, option_a, option_b, option_c, correct_answer, explanation } =
            x;
        out.push(DocMcqQuestion {
            question,
            option_a,
            option_b,
            option_c,
            correct_answer,
            explanation,
        });
        proof {
            assert(rest@ =~= v@.subrange(out@.len() as int, v@.len() as int));
        }
    }
    out
}

/// Maps a sequence of theoretical questions in order.
fn map_theoreticals(v: Vec<TheoreticalQuestion>) -> (r: Vec<DocTheoreticalQuestion>)
    ensures
        r@.len() == v@.len(),
        forall|i: int| 0 <= i < v@.len() ==> theoretical_mapped(v@[i], #[trigger] r@[i]),
{
    let mut rest = v;
    let mut out: Vec<DocTheoreticalQuestion> = Vec::new();
    while rest.len() > 0
        invariant
            out@.len() + rest@.len() == v@.len(),
            rest@ == v@.subrange(out@.len() as int, v@.len() as int),
            forall|i: int| 0 <= i < out@.len() ==> theoretical_mapped(v@[i], #[trigger] out@[i]),
        decreases rest@.len(),
    {
        let x = rest.remove(0);
        let TheoreticalQuestion { question, parts, model_answer, marking_scheme } = x;
        out.push(DocTheoreticalQuestion { question, parts, model_answer, marking_scheme });
        proof {
            assert(rest@ =~= v@.subrange(out@.len() as int, v@.len() as int));
        }
    }
    out
}

/// Flattens one lesson into the document model: a pure, total
/// transform with no failure mode. Every enumeration is rendered
/// through its total display mapping, the sub-point text union is
/// resolved to a scalar, and absent optional containers become empty
/// ones.
pub fn map_lesson(content: CompleteLessonContent) -> (l: Lesson)
    ensures
        lesson_mapped(content, l),
{
    let CompleteLessonContent {
        age_range,
        class_level,
        subject,
        week,
        term,
        topic_title,
        duration_mins,
        introduction,
        objectives,
        materials,
        prior_knowledge,
        content_sections,
        lesson_steps,
        key_points,
        mcq_questions,
        theoretical_questions,
        conclusion,
        teacher_tips,
        remediation,
        formative_assessment,
        summative_assessment,
        extension_activities,
        primary_sources,
        success_criteria,
        textbook_references,
    } = content;
    Lesson {
        age_range,
        class_level: class_level_to_string(class_level),
        subject,
        week,
        term: term_to_string(term),
        topic_title,
        duration_mins,
        introduction,
        objectives: map_objectives(objectives),
        materials,
        prior_knowledge,
        content_sections: map_sections(content_sections),
        lesson_steps: map_steps(lesson_steps),
        key_points,
        mcq_questions: map_mcqs(mcq_questions),
        theoretical_questions: map_theoreticals(theoretical_questions),
        conclusion,
        teacher_tips,
        remediation,
        formative_assessment,
        summative_assessment,
        extension_activities,
        primary_sources,
        success_criteria,
        textbook_references,
    }
}

/// A section in the shape the union- and option-resolution cannot
/// collapse: the sub-point sequence is present and every sub-point
/// text is the plain variant.
pub open spec fn canonical_section(cs: ContentSection) -> bool {
    match cs.sub_points {
        Some(sps) => forall|i: int| 0 <= i < sps@.len() ==> (#[trigger] sps@[i].text) is Plain,
        None => false,
    }
}

/// A lesson in the shape the flattening cannot collapse: every section
/// is canonical and every step carries an assessment note. On such
/// lessons the document model determines the source lesson.
pub open spec fn canonical_content(c: CompleteLessonContent) -> bool {
    &&& forall|i: int|
        0 <= i < c.content_sections@.len() ==> canonical_section(
            #[trigger] c.content_sections@[i],
        )
    &&& forall|i: int|
        0 <= i < c.lesson_steps@.len() ==> (#[trigger] c.lesson_steps@[i]).assessment is Some
}

/// Two sections that agree field for field, their sub-point sequences
/// compared element by element.
pub open spec fn section_alike(a: ContentSection, b: ContentSection) -> bool {
    &&& a.header == b.header
    &&& a.body == b.body
    &&& match (a.sub_points, b.sub_points) {
        (Some(x), Some(y)) => x@ == y@,
        (None, None) => true,
        _ => false,
    }
}

/// Two lessons that agree field for field, each sequence field
/// compared element by element.
pub open spec fn same_content(c1: CompleteLessonContent, c2: CompleteLessonContent) -> bool {
    &&& c1.age_range == c2.age_range
    &&& c1.class_level == c2.class_level
    &&& c1.subject == c2.subject
    &&& c1.week == c2.week
    &&& c1.term == c2.term
    &&& c1.topic_title == c2.topic_title
    &&& c1.duration_mins == c2.duration_mins
    &&& c1.introduction == c2.introduction
    &&& c1.objectives@ == c2.objectives@
    &&& c1.materials == c2.materials
    &&& c1.prior_knowledge == c2.prior_knowledge
    &&& c1.content_sections@.len() == c2.content_sections@.len()
    &&& forall|i: int|
        0 <= i < c1.content_sections@.len() ==> section_alike(
            #[trigger] c1.content_sections@[i],
            #[trigger] c2.content_sections@[i],
        )
    &&& c1.lesson_steps@ == c2.lesson_steps@
    &&& c1.key_points == c2.key_points
    &&& c1.mcq_questions@ == c2.mcq_questions@
    &&& c1.theoretical_questions@ == c2.theoretical_questions@
    &&& c1.conclusion == c2.conclusion
    &&& c1.teacher_tips == c2.teacher_tips
    &&& c1.remediation == c2.remediation
    &&& c1.formative_assessment == c2.formative_assessment
    &&& c1.summative_assessment == c2.summative_assessment
    &&& c1.extension_activities == c2.extension_activities
    &&& c1.primary_sources == c2.primary_sources
    &&& c1.success_criteria == c2.success_criteria
    &&& c1.textbook_references == c2.textbook_references
}

/// Law: the flattening loses no content. Two canonical lessons that
/// appear as the same document model agree on every field — each
/// source field survives, transformed but recoverable, and since the
/// document model has no optional or variant fields, none are
/// introduced on the way.
pub proof fn lemma_mapper_injective(
    c1: CompleteLessonContent,
    c2: CompleteLessonContent,
    l: Lesson,
)
    requires
        canonical_content(c1),
        canonical_content(c2),
        lesson_mapped(c1, l),
        lesson_mapped(c2, l),
    ensures
        same_content(c1, c2),
{
    lemma_class_display_injective(c1.class_level, c2.class_level);
    lemma_term_display_injective(c1.term, c2.term);
    assert forall|i: int|
        0 <= i < c1.objectives@.len() implies c1.objectives@[i] == #[trigger] c2.objectives@[i] by {
        assert(objective_mapped(c1.objectives@[i], l.objectives@[i]));
        assert(objective_mapped(c2.objectives@[i], l.objectives@[i]));
    }
    assert(c1.objectives@ =~= c2.objectives@);
    assert forall|i: int|
        0 <= i < c1.lesson_steps@.len() implies c1.lesson_steps@[i] == #[trigger] c2.lesson_steps@[i] by {
        assert(step_mapped(c1.lesson_steps@[i], l.lesson_steps@[i]));
        assert(step_mapped(c2.lesson_steps@[i], l.lesson_steps@[i]));
        assert(c1.lesson_steps@[i].assessment is Some);
        assert(c2.lesson_steps@[i].assessment is Some);
    }
    assert(c1.lesson_steps@ =~= c2.lesson_steps@);
    assert forall|i: int|
        0 <= i < c1.mcq_questions@.len() implies c1.mcq_questions@[i] == #[trigger] c2.mcq_questions@[i] by {
        assert(mcq_mapped(c1.mcq_questions@[i], l.mcq_questions@[i]));
        assert(mcq_mapped(c2.mcq_questions@[i], l.mcq_questions@[i]));
    }
    assert(c1.mcq_questions@ =~= c2.mcq_questions@);
    assert forall|i: int|
        0 <= i < c1.theoretical_questions@.len() implies c1.theoretical_questions@[i]
            == #[trigger] c2.theoretical_questions@[i] by {
        assert(theoretical_mapped(c1.theoretical_questions@[i], l.theoretical_questions@[i]));
        assert(theoretical_mapped(c2.theoretical_questions@[i], l.theoretical_questions@[i]));
    }
    assert(c1.theoretical_questions@ =~= c2.theoretical_questions@);
    assert forall|i: int|
        0 <= i < c1.content_sections@.len() implies section_alike(
        #[trigger] c1.content_sections@[i],
        #[trigger] c2.content_sections@[i],
    ) by {
        let a = c1.content_sections@[i];
        let b = c2.content_sections@[i];
        let d = l.content_sections@[i];
        assert(section_mapped(a, d));
        assert(section_mapped(b, d));
        assert(canonical_section(a));
        assert(canonical_section(b));
        let x = a.sub_points->0;
        let y = b.sub_points->0;
        assert forall|j: int| 0 <= j < x@.len() implies x@[j] == #[trigger] y@[j] by {
            assert(sub_point_mapped(x@[j], d.sub_points@[j]));
            assert(sub_point_mapped(y@[j], d.sub_points@[j]));
            assert(x@[j].text is Plain);
            assert(y@[j].text is Plain);
        }
        assert(x@ =~= y@);
    }
}

} // verus!
