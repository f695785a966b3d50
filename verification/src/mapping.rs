use vstd::prelude::*;

use crate::content::{ClassLevel, GenerateLessonRequest, Term};
use crate::errors::AgentError;
use crate::records::TopicRecord;

verus! {

/// Compares two string slices by their character sequences.
pub fn str_eq(a: &str, b: &str) -> (r: bool)
    ensures
        r == (a@ == b@),
{
    let sa = String::from_str(a);
    let sb = String::from_str(b);
    sa == sb
}

/// The fixed lookup from a topic's free-text class to the closed set of
/// grade bands: exactly the five spellings "Year 1" .. "Year 5" are
/// recognized.
pub open spec fn class_level_of(s: Seq<char>) -> Option<ClassLevel> {
    if s == "Year 1"@ {
        Some(ClassLevel::Primary1)
    } else if s == "Year 2"@ {
        Some(ClassLevel::Primary2)
    } else if s == "Year 3"@ {
        Some(ClassLevel::Primary3)
    } else if s == "Year 4"@ {
        Some(ClassLevel::Primary4)
    } else if s == "Year 5"@ {
        Some(ClassLevel::Primary5)
    } else {
        None
    }
}

/// The fixed lookup from a topic's free-text term to the closed set of
/// terms: each term has an ordinal spelling and a seasonal alias.
pub open spec fn term_of(s: Seq<char>) -> Option<Term> {
    if s == "1st Term"@ || s == "Noel Term"@ {
        Some(Term::First)
    } else if s == "2nd Term"@ || s == "Calvary Term"@ {
        Some(Term::Second)
    } else if s == "3rd Term"@ || s == "Summer Term"@ {
        Some(Term::Third)
    } else {
        None
    }
}

/// Resolves a free-text class to its grade band, if recognized.
pub fn class_level_from_text(class: &str) -> (r: Option<ClassLevel>)
    ensures
        r == class_level_of(class@),
{
    if str_eq(class, "Year 1") {
        Some(ClassLevel::Primary1)
    } else if str_eq(class, "Year 2") {
        Some(ClassLevel::Primary2)
    } else if str_eq(class, "Year 3") {
        Some(ClassLevel::Primary3)
    } else if str_eq(class, "Year 4") {
        Some(ClassLevel::Primary4)
    } else if str_eq(class, "Year 5") {
        Some(ClassLevel::Primary5)
    } else {
        None
    }
}

/// Resolves a free-text term to its term value, if recognized.
pub fn term_from_text(term: &str) -> (r: Option<Term>)
    ensures
        r == term_of(term@),
{
    if str_eq(term, "1st Term") || str_eq(term, "Noel Term") {
        Some(Term::First)
    } else if str_eq(term, "2nd Term") || str_eq(term, "Calvary Term") {
        Some(Term::Second)
    } else if str_eq(term, "3rd Term") || str_eq(term, "Summer Term") {
        Some(Term::Third)
    } else {
        None
    }
}

/// The display string the document model carries for each grade band.
/// The mapping is total: every band has a presentation string.
pub open spec fn class_level_display(c: ClassLevel) -> Seq<char> {
    match c {
        ClassLevel::Primary1 => "PRIMARY_1"@,
        ClassLevel::Primary2 => "PRIMARY_2"@,
        ClassLevel::Primary3 => "PRIMARY_3"@,
        ClassLevel::Primary4 => "PRIMARY_4"@,
        ClassLevel::Primary5 => "PRIMARY_5"@,
        ClassLevel::Jss1 => "JSS_1"@,
        ClassLevel::Jss2 => "JSS_2"@,
        ClassLevel::Jss3 => "JSS_3"@,
    }
}

/// Renders a grade band as its display string.
pub fn class_level_to_string(level: ClassLevel) -> (r: String)
    ensures
        r@ == class_level_display(level),
{
    match level {
        ClassLevel::Primary1 => String::from_str("PRIMARY_1"),
        ClassLevel::Primary2 => String::from_str("PRIMARY_2"),
        ClassLevel::Primary3 => String::from_str("PRIMARY_3"),
        ClassLevel::Primary4 => String::from_str("PRIMARY_4"),
        ClassLevel::Primary5 => String::from_str("PRIMARY_5"),
        ClassLevel::Jss1 => String::from_str("JSS_1"),
        ClassLevel::Jss2 => String::from_str("JSS_2"),
        ClassLevel::Jss3 => String::from_str("JSS_3"),
    }
}

/// The display string the document model carries for each term. The
/// mapping is total.
pub open spec fn term_display(t: Term) -> Seq<char> {
    match t {
        Term::First => "FIRST"@,
        Term::Second => "SECOND"@,
        Term::Third => "THIRD"@,
    }
}

/// Renders a term as its display string.
pub fn term_to_string(term: Term) -> (r: String)
    ensures
        r@ == term_display(term),
{
    match term {
        Term::First => String::from_str("FIRST"),
        Term::Second => String::from_str("SECOND"),
        Term::Third => String::from_str("THIRD"),
    }
}

/// The numeric-string year code the rendering template expects for a
/// display-form class string. Only the five primary bands have a code;
/// every other value maps to the empty string, a known gap kept from
/// the template's contract.
pub open spec fn class_code_of(s: Seq<char>) -> Seq<char> {
    if s == "PRIMARY_1"@ {
        "1"@
    } else if s == "PRIMARY_2"@ {
        "2"@
    } else if s == "PRIMARY_3"@ {
        "3"@
    } else if s == "PRIMARY_4"@ {
        "4"@
    } else if s == "PRIMARY_5"@ {
        "5"@
    } else {
        ""@
    }
}

/// Maps a display-form class string to the template's year code.
pub fn class_code(class_year: &str) -> (r: String)
    ensures
        r@ == class_code_of(class_year@),
{
    if str_eq(class_year, "PRIMARY_1") {
        String::from_str("1")
    } else if str_eq(class_year, "PRIMARY_2") {
        String::from_str("2")
    } else if str_eq(class_year, "PRIMARY_3") {
        String::from_str("3")
    } else if str_eq(class_year, "PRIMARY_4") {
        String::from_str("4")
    } else if str_eq(class_year, "PRIMARY_5") {
        String::from_str("5")
    } else {
        String::from_str("")
    }
}

/// Builds the generation request for one topic, resolving its class
/// and term through the fixed lookups. An unrecognized class or term
/// is reported as a typed, recoverable error before any remote call is
/// made; the class is checked first. No input panics.
pub fn prepare_generation(topic: &TopicRecord) -> (r: Result<GenerateLessonRequest, AgentError>)
    ensures
        class_level_of(topic.class@) is None ==> (r matches Err(e)
            && e.code@ == "INVALID_CLASS_LEVEL"@
            && e.message@ == "Invalid class level: "@ + topic.class@),
        class_level_of(topic.class@) is Some && term_of(topic.term@) is None ==> (r matches Err(e)
            && e.code@ == "INVALID_TERM"@
            && e.message@ == "Invalid term: "@ + topic.term@),
        class_level_of(topic.class@) is Some && term_of(topic.term@) is Some ==> (r matches Ok(req)
            && Some(req.class_level) == class_level_of(topic.class@)
            && Some(req.term) == term_of(topic.term@)
            && req.age_group == topic.agegroup
            && req.subject == topic.subject
            && req.topic == topic.topic
            && req.week == topic.week),
{
    let class_level = match class_level_from_text(topic.class.as_str()) {
        Some(c) => c,
        None => {
            let mut m = String::from_str("Invalid class level: ");
            m.append(topic.class.as_str());
            return Err(AgentError::new("INVALID_CLASS_LEVEL", m));
        },
    };
    let term = match term_from_text(topic.term.as_str()) {
        Some(t) => t,
        None => {
            let mut m = String::from_str("Invalid term: ");
            m.append(topic.term.as_str());
            return Err(AgentError::new("INVALID_TERM", m));
        },
    };
    Ok(GenerateLessonRequest {
        age_group: topic.agegroup.clone(),
        class_level,
        subject: topic.subject.clone(),
        term,
        topic: topic.topic.clone(),
        week: topic.week,
    })
}

/// Two character sequences that disagree at one position differ.
pub proof fn lemma_seq_differs_at(s1: Seq<char>, s2: Seq<char>, i: int)
    requires
        0 <= i < s1.len(),
        0 <= i < s2.len(),
        s1[i] != s2[i],
    ensures
        s1 != s2,
{
}

/// Two character sequences of different lengths differ.
pub proof fn lemma_seq_len_differs(s1: Seq<char>, s2: Seq<char>)
    requires
        s1.len() != s2.len(),
    ensures
        s1 != s2,
{
}

/// Law: on the recognized class spellings the class lookup is
/// injective — distinct recognized spellings resolve to distinct grade
/// bands.
pub proof fn lemma_class_mapping_injective(s1: Seq<char>, s2: Seq<char>)
    requires
        class_level_of(s1) is Some,
        class_level_of(s1) == class_level_of(s2),
    ensures
        s1 == s2,
{
}

/// Law: the class lookup reaches all five primary grade bands.
pub proof fn lemma_class_mapping_onto()
    ensures
        class_level_of("Year 1"@) == Some(ClassLevel::Primary1),
        class_level_of("Year 2"@) == Some(ClassLevel::Primary2),
        class_level_of("Year 3"@) == Some(ClassLevel::Primary3),
        class_level_of("Year 4"@) == Some(ClassLevel::Primary4),
        class_level_of("Year 5"@) == Some(ClassLevel::Primary5),
{
    reveal_strlit("Year 1");
    reveal_strlit("Year 2");
    reveal_strlit("Year 3");
    reveal_strlit("Year 4");
    reveal_strlit("Year 5");
    lemma_seq_differs_at("Year 1"@, "Year 2"@, 5);
    lemma_seq_differs_at("Year 1"@, "Year 3"@, 5);
    lemma_seq_differs_at("Year 1"@, "Year 4"@, 5);
    lemma_seq_differs_at("Year 1"@, "Year 5"@, 5);
    lemma_seq_differs_at("Year 2"@, "Year 3"@, 5);
    lemma_seq_differs_at("Year 2"@, "Year 4"@, 5);
    lemma_seq_differs_at("Year 2"@, "Year 5"@, 5);
    lemma_seq_differs_at("Year 3"@, "Year 4"@, 5);
    lemma_seq_differs_at("Year 3"@, "Year 5"@, 5);
    lemma_seq_differs_at("Year 4"@, "Year 5"@, 5);
}

/// Law: the term lookup reaches all three terms, through the ordinal
/// spelling and the seasonal alias alike.
pub proof fn lemma_term_mapping_onto()
    ensures
        term_of("1st Term"@) == Some(Term::First),
        term_of("Noel Term"@) == Some(Term::First),
        term_of("2nd Term"@) == Some(Term::Second),
        term_of("Calvary Term"@) == Some(Term::Second),
        term_of("3rd Term"@) == Some(Term::Third),
        term_of("Summer Term"@) == Some(Term::Third),
{
    reveal_strlit("1st Term");
    reveal_strlit("2nd Term");
    reveal_strlit("3rd Term");
    reveal_strlit("Noel Term");
    reveal_strlit("Calvary Term");
    reveal_strlit("Summer Term");
    lemma_seq_differs_at("2nd Term"@, "1st Term"@, 0);
    lemma_seq_len_differs("2nd Term"@, "Noel Term"@);
    lemma_seq_len_differs("Calvary Term"@, "1st Term"@);
    lemma_seq_len_differs("Calvary Term"@, "Noel Term"@);
    lemma_seq_differs_at("3rd Term"@, "1st Term"@, 0);
    lemma_seq_len_differs("3rd Term"@, "Noel Term"@);
    lemma_seq_differs_at("3rd Term"@, "2nd Term"@, 0);
    lemma_seq_len_differs("3rd Term"@, "Calvary Term"@);
    lemma_seq_len_differs("Summer Term"@, "1st Term"@);
    lemma_seq_len_differs("Summer Term"@, "Noel Term"@);
    lemma_seq_len_differs("Summer Term"@, "2nd Term"@);
    lemma_seq_len_differs("Summer Term"@, "Calvary Term"@);
}

/// Law: the display mapping for grade bands is injective — two bands
/// with the same display string are the same band. With totality this
/// makes the display form a faithful stand-in for the band itself.
pub proof fn lemma_class_display_injective(a: ClassLevel, b: ClassLevel)
    requires
        class_level_display(a) == class_level_display(b),
    ensures
        a == b,
{
    reveal_strlit("PRIMARY_1");
    reveal_strlit("PRIMARY_2");
    reveal_strlit("PRIMARY_3");
    reveal_strlit("PRIMARY_4");
    reveal_strlit("PRIMARY_5");
    reveal_strlit("JSS_1");
    reveal_strlit("JSS_2");
    reveal_strlit("JSS_3");
    lemma_seq_differs_at("PRIMARY_1"@, "PRIMARY_2"@, 8);
    lemma_seq_differs_at("PRIMARY_1"@, "PRIMARY_3"@, 8);
    lemma_seq_differs_at("PRIMARY_1"@, "PRIMARY_4"@, 8);
    lemma_seq_differs_at("PRIMARY_1"@, "PRIMARY_5"@, 8);
    lemma_seq_differs_at("PRIMARY_2"@, "PRIMARY_3"@, 8);
    lemma_seq_differs_at("PRIMARY_2"@, "PRIMARY_4"@, 8);
    lemma_seq_differs_at("PRIMARY_2"@, "PRIMARY_5"@, 8);
    lemma_seq_differs_at("PRIMARY_3"@, "PRIMARY_4"@, 8);
    lemma_seq_differs_at("PRIMARY_3"@, "PRIMARY_5"@, 8);
    lemma_seq_differs_at("PRIMARY_4"@, "PRIMARY_5"@, 8);
    lemma_seq_differs_at("JSS_1"@, "JSS_2"@, 4);
    lemma_seq_differs_at("JSS_1"@, "JSS_3"@, 4);
    lemma_seq_differs_at("JSS_2"@, "JSS_3"@, 4);
    lemma_seq_len_differs("PRIMARY_1"@, "JSS_1"@);
    lemma_seq_len_differs("PRIMARY_1"@, "JSS_2"@);
    lemma_seq_len_differs("PRIMARY_1"@, "JSS_3"@);
    lemma_seq_len_differs("PRIMARY_2"@, "JSS_1"@);
    lemma_seq_len_differs("PRIMARY_2"@, "JSS_2"@);
    lemma_seq_len_differs("PRIMARY_2"@, "JSS_3"@);
    lemma_seq_len_differs("PRIMARY_3"@, "JSS_1"@);
    lemma_seq_len_differs("PRIMARY_3"@, "JSS_2"@);
    lemma_seq_len_differs("PRIMARY_3"@, "JSS_3"@);
    lemma_seq_len_differs("PRIMARY_4"@, "JSS_1"@);
    lemma_seq_len_differs("PRIMARY_4"@, "JSS_2"@);
    lemma_seq_len_differs("PRIMARY_4"@, "JSS_3"@);
    lemma_seq_len_differs("PRIMARY_5"@, "JSS_1"@);
    lemma_seq_len_differs("PRIMARY_5"@, "JSS_2"@);
    lemma_seq_len_differs("PRIMARY_5"@, "JSS_3"@);
}

/// Law: the display mapping for terms is injective.
pub proof fn lemma_term_display_injective(a: Term, b: Term)
    requires
        term_display(a) == term_display(b),
    ensures
        a == b,
{
    reveal_strlit("FIRST");
    reveal_strlit("SECOND");
    reveal_strlit("THIRD");
    lemma_seq_len_differs("FIRST"@, "SECOND"@);
    lemma_seq_differs_at("FIRST"@, "THIRD"@, 0);
    lemma_seq_len_differs("SECOND"@, "THIRD"@);
}

/// Law: restricted to the ordinal spellings the term lookup is
/// injective. Over all six recognized spellings it cannot be: each
/// ordinal spelling shares its term with a seasonal alias.
pub proof fn lemma_term_mapping_injective_on_ordinals(s1: Seq<char>, s2: Seq<char>)
    requires
        s1 == "1st Term"@ || s1 == "2nd Term"@ || s1 == "3rd Term"@,
        s2 == "1st Term"@ || s2 == "2nd Term"@ || s2 == "3rd Term"@,
        term_of(s1) == term_of(s2),
    ensures
        s1 == s2,
{
    reveal_strlit("1st Term");
    reveal_strlit("2nd Term");
    reveal_strlit("3rd Term");
    reveal_strlit("Noel Term");
    reveal_strlit("Calvary Term");
    reveal_strlit("Summer Term");
}

} // verus!
