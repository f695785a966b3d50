use lesson_pipeline::records::{PersistedRecord, TopicRecord};
use lesson_pipeline::store::{
    build_create_query, build_select_query, decode_create_response, decode_fetch_response,
    RecordSlot, ResultPayload, StatementOutcome,
};

fn topic_row() -> TopicRecord {
    TopicRecord {
        id: Some("t1".to_string()),
        agegroup: "7-8".to_string(),
        class: "Year 2".to_string(),
        subject: "Maths".to_string(),
        term: "2nd Term".to_string(),
        topic: "Fractions".to_string(),
        week: 3,
    }
}

fn ok_slot<R>(payload: ResultPayload<R>) -> StatementOutcome<R> {
    StatementOutcome { status: Some("OK".to_string()), result: Some(payload) }
}

#[test]
fn select_query_has_namespace_prefix_and_table() {
    let q = build_select_query("lessons_term1");
    assert_eq!(q, "USE NS main DB contents; SELECT * FROM lessons_term1;");
}

#[test]
fn create_query_injects_bare_source_id() {
    let q = build_create_query("{\"week\":3}", "t1");
    assert_eq!(
        q,
        "USE NS main DB contents; CREATE lesson_content CONTENT {\"week\":3,\"source_id\":t1};"
    );
    assert!(!q.contains("\"source_id\":\"t1\""));
}

#[test]
fn create_query_handles_empty_object() {
    let q = build_create_query("{}", "t9");
    assert_eq!(
        q,
        "USE NS main DB contents; CREATE lesson_content CONTENT {\"source_id\":t9};"
    );
}

#[test]
fn fetch_decode_reads_index_one_and_returns_rows() {
    let env = vec![
        ok_slot(ResultPayload::Null),
        ok_slot(ResultPayload::Records(vec![RecordSlot::Parsed(topic_row())])),
    ];
    let rows = decode_fetch_response(env).unwrap();
    assert_eq!(rows.len(), 1);
    assert_eq!(rows[0].topic, "Fractions");
}

#[test]
fn fetch_decode_treats_null_result_as_empty_table() {
    let env: Vec<StatementOutcome<TopicRecord>> =
        vec![ok_slot(ResultPayload::Null), ok_slot(ResultPayload::Null)];
    let rows = decode_fetch_response(env).unwrap();
    assert_eq!(rows.len(), 0);
}

#[test]
fn fetch_decode_of_empty_table_is_repeatable() {
    for _ in 0..2 {
        let env: Vec<StatementOutcome<TopicRecord>> =
            vec![ok_slot(ResultPayload::Null), ok_slot(ResultPayload::Null)];
        let rows = decode_fetch_response(env).unwrap();
        assert_eq!(rows.len(), 0);
    }
}

#[test]
fn fetch_decode_rejects_short_envelope() {
    let env: Vec<StatementOutcome<TopicRecord>> = vec![ok_slot(ResultPayload::Null)];
    let e = decode_fetch_response(env).unwrap_err();
    assert_eq!(e.code, "INSUFFICIENT_RESULTS");
}

#[test]
fn fetch_decode_rejects_failed_status() {
    let env: Vec<StatementOutcome<TopicRecord>> = vec![
        ok_slot(ResultPayload::Null),
        StatementOutcome {
            status: Some("FAILED".to_string()),
            result: Some(ResultPayload::Null),
        },
    ];
    let e = decode_fetch_response(env).unwrap_err();
    assert_eq!(e.code, "QUERY_FAILED");
    assert_eq!(e.message, "Query failed with status: FAILED");
}

#[test]
fn fetch_decode_rejects_missing_result_field() {
    let env: Vec<StatementOutcome<TopicRecord>> = vec![
        ok_slot(ResultPayload::Null),
        StatementOutcome { status: Some("OK".to_string()), result: None },
    ];
    let e = decode_fetch_response(env).unwrap_err();
    assert_eq!(e.code, "MISSING_RESULT");
}

#[test]
fn fetch_decode_rejects_unexpected_result_shape() {
    let env: Vec<StatementOutcome<TopicRecord>> = vec![
        ok_slot(ResultPayload::Null),
        ok_slot(ResultPayload::Other("String(\"oops\")".to_string())),
    ];
    let e = decode_fetch_response(env).unwrap_err();
    assert_eq!(e.code, "UNEXPECTED_RESULT");
}

#[test]
fn fetch_decode_rejects_malformed_record() {
    let env = vec![
        ok_slot(ResultPayload::Null),
        ok_slot(ResultPayload::Records(vec![
            RecordSlot::Parsed(topic_row()),
            RecordSlot::Malformed("missing field `week`".to_string()),
        ])),
    ];
    let e = decode_fetch_response(env).unwrap_err();
    assert_eq!(e.code, "DESERIALIZE_ERROR");
}

#[test]
fn fetch_decode_tolerates_missing_status() {
    let env = vec![
        ok_slot(ResultPayload::Null),
        StatementOutcome {
            status: None,
            result: Some(ResultPayload::Records(vec![RecordSlot::Parsed(topic_row())])),
        },
    ];
    let rows = decode_fetch_response(env).unwrap();
    assert_eq!(rows.len(), 1);
}

#[test]
fn create_decode_reads_index_zero_and_returns_the_record() {
    let env = vec![ok_slot(ResultPayload::Records(vec![RecordSlot::Parsed(PersistedRecord {
        id: Some("lesson_content:abc".to_string()),
        source_id: "t1".to_string(),
    })]))];
    let rec = decode_create_response(env).unwrap();
    assert_eq!(rec.source_id, "t1");
    assert_eq!(rec.id, Some("lesson_content:abc".to_string()));
}

#[test]
fn create_decode_rejects_empty_envelope() {
    let env: Vec<StatementOutcome<PersistedRecord>> = vec![];
    let e = decode_create_response(env).unwrap_err();
    assert_eq!(e.code, "INSUFFICIENT_RESULTS");
}

#[test]
fn create_decode_rejects_empty_result() {
    let env: Vec<StatementOutcome<PersistedRecord>> =
        vec![ok_slot(ResultPayload::Records(vec![]))];
    let e = decode_create_response(env).unwrap_err();
    assert_eq!(e.code, "EMPTY_RESULT");
    assert_eq!(e.message, "Create returned empty result");
}

#[test]
fn create_decode_requires_exactly_one_record() {
    let one = PersistedRecord { id: Some("a".to_string()), source_id: "t1".to_string() };
    let two = PersistedRecord { id: Some("b".to_string()), source_id: "t1".to_string() };
    let env = vec![ok_slot(ResultPayload::Records(vec![
        RecordSlot::Parsed(one),
        RecordSlot::Parsed(two),
    ]))];
    let e = decode_create_response(env).unwrap_err();
    assert_eq!(e.code, "INSUFFICIENT_RESULTS");
}

#[test]
fn create_decode_rejects_failed_status() {
    let env: Vec<StatementOutcome<PersistedRecord>> = vec![StatementOutcome {
        status: Some("ERR".to_string()),
        result: Some(ResultPayload::Records(vec![])),
    }];
    let e = decode_create_response(env).unwrap_err();
    assert_eq!(e.code, "QUERY_FAILED");
}
