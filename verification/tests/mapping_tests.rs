use lesson_pipeline::content::{ClassLevel, Term};
use lesson_pipeline::mapping::{
    class_code, class_level_from_text, class_level_to_string, prepare_generation, term_from_text,
    term_to_string,
};
use lesson_pipeline::records::TopicRecord;

fn topic(class: &str, term: &str) -> TopicRecord {
    TopicRecord {
        id: Some("t1".to_string()),
        agegroup: "7-8".to_string(),
        class: class.to_string(),
        subject: "Maths".to_string(),
        term: term.to_string(),
        topic: "Fractions".to_string(),
        week: 3,
    }
}

#[test]
fn class_lookup_recognizes_all_five_years() {
    assert_eq!(class_level_from_text("Year 1"), Some(ClassLevel::Primary1));
    assert_eq!(class_level_from_text("Year 2"), Some(ClassLevel::Primary2));
    assert_eq!(class_level_from_text("Year 3"), Some(ClassLevel::Primary3));
    assert_eq!(class_level_from_text("Year 4"), Some(ClassLevel::Primary4));
    assert_eq!(class_level_from_text("Year 5"), Some(ClassLevel::Primary5));
}

#[test]
fn class_lookup_rejects_unrecognized_text() {
    assert_eq!(class_level_from_text("Year 6"), None);
    assert_eq!(class_level_from_text("year 1"), None);
    assert_eq!(class_level_from_text(""), None);
}

#[test]
fn term_lookup_recognizes_all_six_spellings() {
    assert_eq!(term_from_text("1st Term"), Some(Term::First));
    assert_eq!(term_from_text("Noel Term"), Some(Term::First));
    assert_eq!(term_from_text("2nd Term"), Some(Term::Second));
    assert_eq!(term_from_text("Calvary Term"), Some(Term::Second));
    assert_eq!(term_from_text("3rd Term"), Some(Term::Third));
    assert_eq!(term_from_text("Summer Term"), Some(Term::Third));
}

#[test]
fn term_lookup_rejects_unrecognized_text() {
    assert_eq!(term_from_text("4th Term"), None);
    assert_eq!(term_from_text("noel term"), None);
    assert_eq!(term_from_text(""), None);
}

#[test]
fn class_lookup_is_injective_on_recognized_spellings() {
    let spellings = ["Year 1", "Year 2", "Year 3", "Year 4", "Year 5"];
    for a in spellings.iter() {
        for b in spellings.iter() {
            let la = class_level_from_text(a);
            let lb = class_level_from_text(b);
            assert!(la.is_some());
            assert_eq!(la == lb, a == b);
        }
    }
}

#[test]
fn class_display_covers_every_band() {
    assert_eq!(class_level_to_string(ClassLevel::Primary1), "PRIMARY_1");
    assert_eq!(class_level_to_string(ClassLevel::Primary2), "PRIMARY_2");
    assert_eq!(class_level_to_string(ClassLevel::Primary3), "PRIMARY_3");
    assert_eq!(class_level_to_string(ClassLevel::Primary4), "PRIMARY_4");
    assert_eq!(class_level_to_string(ClassLevel::Primary5), "PRIMARY_5");
    assert_eq!(class_level_to_string(ClassLevel::Jss1), "JSS_1");
    assert_eq!(class_level_to_string(ClassLevel::Jss2), "JSS_2");
    assert_eq!(class_level_to_string(ClassLevel::Jss3), "JSS_3");
}

#[test]
fn term_display_covers_every_term() {
    assert_eq!(term_to_string(Term::First), "FIRST");
    assert_eq!(term_to_string(Term::Second), "SECOND");
    assert_eq!(term_to_string(Term::Third), "THIRD");
}

#[test]
fn class_code_maps_primary_bands_and_nothing_else() {
    assert_eq!(class_code("PRIMARY_1"), "1");
    assert_eq!(class_code("PRIMARY_2"), "2");
    assert_eq!(class_code("PRIMARY_3"), "3");
    assert_eq!(class_code("PRIMARY_4"), "4");
    assert_eq!(class_code("PRIMARY_5"), "5");
    assert_eq!(class_code("JSS_1"), "");
    assert_eq!(class_code("JSS_2"), "");
    assert_eq!(class_code("JSS_3"), "");
    assert_eq!(class_code("anything else"), "");
}

#[test]
fn prepare_generation_resolves_recognized_class_and_term() {
    let req = prepare_generation(&topic("Year 2", "2nd Term")).unwrap();
    assert_eq!(req.class_level, ClassLevel::Primary2);
    assert_eq!(req.term, Term::Second);
    assert_eq!(req.age_group, "7-8");
    assert_eq!(req.subject, "Maths");
    assert_eq!(req.topic, "Fractions");
    assert_eq!(req.week, 3);
}

#[test]
fn prepare_generation_rejects_invalid_class() {
    let e = prepare_generation(&topic("Primary 2", "2nd Term")).unwrap_err();
    assert_eq!(e.code, "INVALID_CLASS_LEVEL");
    assert_eq!(e.message, "Invalid class level: Primary 2");
}

#[test]
fn prepare_generation_rejects_invalid_term() {
    let e = prepare_generation(&topic("Year 2", "Easter Term")).unwrap_err();
    assert_eq!(e.code, "INVALID_TERM");
    assert_eq!(e.message, "Invalid term: Easter Term");
}

#[test]
fn prepare_generation_reports_class_before_term() {
    let e = prepare_generation(&topic("Form 1", "Easter Term")).unwrap_err();
    assert_eq!(e.code, "INVALID_CLASS_LEVEL");
}
