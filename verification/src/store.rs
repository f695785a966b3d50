use vstd::prelude::*;

use crate::errors::AgentError;
use crate::mapping::str_eq;
use crate::records::{PersistedRecord, TopicRecord};

verus! {

/// One slot of a statement's result array, as the transport layer
/// hands it over: a record in the expected shape, or a description of
/// a slot that did not fit it.
pub enum RecordSlot<R> {
    Parsed(R),
    Malformed(String),
}

/// The `result` value of one statement: null (an empty or missing
/// table), an array of record slots, or a value of some other shape,
/// carried as a description for the error message.
pub enum ResultPayload<R> {
    Null,
    Records(Vec<RecordSlot<R>>),
    Other(String),
}

/// One statement's outcome within the store's response envelope: its
/// status and its result, either of which the store may omit.
pub struct StatementOutcome<R> {
    pub status: Option<String>,
    pub result: Option<ResultPayload<R>>,
}

/// The decoded meaning of one statement slot: the records it carries,
/// or the failure it reports — its stable code and its message.
pub enum StatementVerdict<R> {
    Rows(Seq<R>),
    Reject { code: Seq<char>, reason: Seq<char> },
}

/// Whether every slot parsed as a record.
pub open spec fn all_parsed<R>(v: Seq<RecordSlot<R>>) -> bool {
    forall|i: int| 0 <= i < v.len() ==> (#[trigger] v[i]) is Parsed
}

/// The records of a fully parsed slot sequence.
pub open spec fn parsed_rows<R>(v: Seq<RecordSlot<R>>) -> Seq<R> {
    v.map_values(|s: RecordSlot<R>| s->Parsed_0)
}

/// The description carried by the first slot that did not parse.
pub open spec fn first_malformed_text<R>(v: Seq<RecordSlot<R>>) -> Seq<char>
    decreases v.len(),
{
    if v.len() == 0 {
        Seq::empty()
    } else {
        match v[0] {
            RecordSlot::Malformed(d) => d@,
            RecordSlot::Parsed(_) => first_malformed_text(v.drop_first()),
        }
    }
}

/// The meaning of the statement slot at `idx` of a response envelope.
/// The store batches the namespace and database selection with the
/// actual statement, so each operation reads its own fixed offset; a
/// response too short to hold that offset is rejected.
pub open spec fn statement_verdict<R>(env: Seq<StatementOutcome<R>>, idx: int) -> StatementVerdict<
    R,
> {
    if env.len() <= idx {
        StatementVerdict::Reject {
            code: "INSUFFICIENT_RESULTS"@,
            reason: "The response held too few statement results"@,
        }
    } else {
        let st = env[idx];
        match st.status {
            Some(s) => if s@ != "OK"@ {
                StatementVerdict::Reject {
                    code: "QUERY_FAILED"@,
                    reason: "Query failed with status: "@ + s@,
                }
            } else {
                payload_verdict(st.result)
            },
            None => payload_verdict(st.result),
        }
    }
}

/// The meaning of one statement's result value.
pub open spec fn payload_verdict<R>(p: Option<ResultPayload<R>>) -> StatementVerdict<R> {
    match p {
        None => StatementVerdict::Reject {
            code: "MISSING_RESULT"@,
            reason: "No 'result' field in response"@,
        },
        Some(ResultPayload::Null) => StatementVerdict::Rows(Seq::<R>::empty()),
        Some(ResultPayload::Records(v)) => if all_parsed(v@) {
            StatementVerdict::Rows(parsed_rows(v@))
        } else {
            StatementVerdict::Reject {
                code: "DESERIALIZE_ERROR"@,
                reason: "Failed to deserialize records: "@ + first_malformed_text(v@),
            }
        },
        Some(ResultPayload::Other(d)) => StatementVerdict::Reject {
            code: "UNEXPECTED_RESULT"@,
            reason: "Unexpected result type: "@ + d@,
        },
    }
}

/// The meaning of a fetch envelope: the select statement's outcome
/// stands at index 1.
pub open spec fn select_verdict<R>(env: Seq<StatementOutcome<R>>) -> StatementVerdict<R> {
    statement_verdict(env, 1)
}

/// The meaning of a persist envelope: the create statement's outcome
/// stands at index 0, and exactly one created record is owed — none is
/// an empty result, several are rejected as well.
pub open spec fn create_verdict<R>(env: Seq<StatementOutcome<R>>) -> StatementVerdict<R> {
    match statement_verdict(env, 0) {
        StatementVerdict::Reject { code, reason } => StatementVerdict::Reject { code, reason },
        StatementVerdict::Rows(rows) => if rows.len() == 0 {
            StatementVerdict::Reject {
                code: "EMPTY_RESULT"@,
                reason: "Create returned empty result"@,
            }
        } else if rows.len() > 1 {
            StatementVerdict::Reject {
                code: "INSUFFICIENT_RESULTS"@,
                reason: "Create returned more than one result"@,
            }
        } else {
            StatementVerdict::Rows(rows)
        },
    }
}

/// The first unparsed slot after a fully parsed prefix carries the
/// sequence's malformed-slot description.
proof fn lemma_first_malformed_after_prefix<R>(v: Seq<RecordSlot<R>>, k: int)
    requires
        0 <= k < v.len(),
        forall|i: int| 0 <= i < k ==> (#[trigger] v[i]) is Parsed,
        v[k] is Malformed,
    ensures
        first_malformed_text(v) == v[k]->Malformed_0@,
    decreases k,
{
    if k > 0 {
        let w = v.drop_first();
        assert forall|i: int| 0 <= i < k - 1 implies (#[trigger] w[i]) is Parsed by {
            assert(v[i + 1] is Parsed);
        }
        lemma_first_malformed_after_prefix(w, k - 1);
        assert(w[k - 1] == v[k]);
    }
}

/// Collects the records of a result array, rejecting the whole array
/// if any slot did not parse.
fn collect_rows<R>(v: Vec<RecordSlot<R>>) -> (r: Result<Vec<R>, AgentError>)
    ensures
        all_parsed(v@) ==> (r matches Ok(rows) && rows@ == parsed_rows(v@)),
        !all_parsed(v@) ==> (r matches Err(e) && e.code@ == "DESERIALIZE_ERROR"@
            && e.message@ == "Failed to deserialize records: "@ + first_malformed_text(v@)),
{
    let mut rest = v;
    let mut out: Vec<R> = Vec::new();
    while rest.len() > 0
        invariant
            out@.len() + rest@.len() == v@.len(),
            rest@ == v@.subrange(out@.len() as int, v@.len() as int),
            forall|i: int|
                0 <= i < out@.len() ==> (#[trigger] v@[i]) is Parsed && out@[i] == v@[i]->Parsed_0,
        decreases rest@.len(),
    {
        let x = rest.remove(0);
        match x {
            RecordSlot::Parsed(rec) => {
                out.push(rec);
                proof {
                    assert(rest@ =~= v@.subrange(out@.len() as int, v@.len() as int));
                }
            },
            RecordSlot::Malformed(d) => {
                proof {
                    assert(!(v@[out@.len() as int] is Parsed));
                    assert(!all_parsed(v@));
                    lemma_first_malformed_after_prefix(v@, out@.len() as int);
                }
                let mut m = String::from_str("Failed to deserialize records: ");
                m.append(d.as_str());
                return Err(AgentError::new("DESERIALIZE_ERROR", m));
            },
        }
    }
    proof {
        assert(out@ =~= parsed_rows(v@));
    }
    Ok(out)
}

/// Decodes the statement slot at `idx` of a response envelope into its
/// records, or into the typed failure the envelope reports. This one
/// decoder carries the offset convention for both the fetch and the
/// persist path.
fn decode_statement<R>(env: Vec<StatementOutcome<R>>, idx: usize) -> (r: Result<
    Vec<R>,
    AgentError,
>)
    ensures
        (match statement_verdict(env@, idx as int) {
            StatementVerdict::Rows(rows) => r matches Ok(v) && v@ == rows,
            StatementVerdict::Reject { code, reason } => r matches Err(e) && e.code@ == code
                && e.message@ == reason,
        }),
{
    let mut env = env;
    if env.len() <= idx {
        return Err(
            AgentError::fixed(
                "INSUFFICIENT_RESULTS",
                "The response held too few statement results",
            ),
        );
    }
    let st = env.remove(idx);
    let StatementOutcome { status, result } = st;
    match status {
        Some(s) => {
            if !str_eq(s.as_str(), "OK") {
                let mut m = String::from_str("Query failed with status: ");
                m.append(s.as_str());
                return Err(AgentError::new("QUERY_FAILED", m));
            }
        },
        None => {},
    }
    match result {
        None => Err(AgentError::fixed("MISSING_RESULT", "No 'result' field in response")),
        Some(ResultPayload::Null) => Ok(Vec::new()),
        Some(ResultPayload::Records(v)) => collect_rows(v),
        Some(ResultPayload::Other(d)) => {
            let mut m = String::from_str("Unexpected result type: ");
            m.append(d.as_str());
            Err(AgentError::new("UNEXPECTED_RESULT", m))
        },
    }
}

/// Decodes the envelope of a fetch. An empty or absent table is not an
/// error: it yields the empty record sequence.
pub fn decode_fetch_response(env: Vec<StatementOutcome<TopicRecord>>) -> (r: Result<
    Vec<TopicRecord>,
    AgentError,
>)
    ensures
        (match select_verdict(env@) {
            StatementVerdict::Rows(rows) => r matches Ok(v) && v@ == rows,
            StatementVerdict::Reject { code, reason } => r matches Err(e) && e.code@ == code
                && e.message@ == reason,
        }),
{
    decode_statement(env, 1)
}

/// Decodes the envelope of a persist into the single created record it
/// must carry.
pub fn decode_create_response(env: Vec<StatementOutcome<PersistedRecord>>) -> (r: Result<
    PersistedRecord,
    AgentError,
>)
    ensures
        (match create_verdict(env@) {
            StatementVerdict::Rows(rows) => r matches Ok(rec) && rows == seq![rec],
            StatementVerdict::Reject { code, reason } => r matches Err(e) && e.code@ == code
                && e.message@ == reason,
        }),
{
    match decode_statement(env, 0) {
        Err(e) => Err(e),
        Ok(mut rows) => {
            if rows.len() == 0 {
                Err(AgentError::fixed("EMPTY_RESULT", "Create returned empty result"))
            } else if rows.len() > 1 {
                Err(
                    AgentError::fixed(
                        "INSUFFICIENT_RESULTS",
                        "Create returned more than one result",
                    ),
                )
            } else {
                let rec = rows.remove(0);
                proof {
                    assert(rows@.push(rec) =~= seq![rec]);
                }
                Ok(rec)
            }
        },
    }
}

/// The complete query text of a fetch: the namespace and database
/// prefix, then a select over the table.
pub open spec fn select_query(table: Seq<char>) -> Seq<char> {
    "USE NS main DB contents; SELECT * FROM "@ + table + ";"@
}

/// Builds the query text that fetches every record of a table.
pub fn build_select_query(table: &str) -> (q: String)
    ensures
        q@ == select_query(table@),
{
    let mut q = String::from_str("USE NS main DB contents; SELECT * FROM ");
    q.append(table);
    q.append(";");
    q
}

/// A serialized JSON object with the source topic's id injected as the
/// last member, unquoted: the id is a store-native record reference,
/// not a string, so it must stand bare in the object.
pub open spec fn content_with_source_id(content: Seq<char>, id: Seq<char>) -> Seq<char> {
    content.take(content.len() - 1) + (if content.len() == 2 {
        Seq::<char>::empty()
    } else {
        ","@
    }) + "\"source_id\":"@ + id + "}"@
}

/// The complete query text of a persist: the namespace and database
/// prefix, then a create statement whose content is the lesson JSON
/// with the bare `source_id` field injected.
pub open spec fn create_query(content: Seq<char>, id: Seq<char>) -> Seq<char> {
    "USE NS main DB contents; CREATE lesson_content CONTENT "@ + content_with_source_id(
        content,
        id,
    ) + ";"@
}

/// Builds the query text that persists one serialized lesson, tagged
/// with the source topic's id. The caller hands the lesson as a
/// serialized JSON object (`{` ... `}`).
pub fn build_create_query(content_json: &str, source_id: &str) -> (q: String)
    requires
        content_json@.len() >= 2,
        content_json@[0] == '{',
        content_json@[content_json@.len() - 1] == '}',
    ensures
        q@ == create_query(content_json@, source_id@),
{
    let n = content_json.unicode_len();
    let body = content_json.substring_char(0, n - 1);
    let mut q = String::from_str("USE NS main DB contents; CREATE lesson_content CONTENT ");
    q.append(body);
    if n > 2 {
        q.append(",");
    }
    q.append("\"source_id\":");
    q.append(source_id);
    q.append("}");
    q.append(";");
    q
}

/// An envelope that reports an empty or absent table: the select slot
/// is present, carries no failing status, and its result is null.
pub open spec fn empty_table_response<R>(env: Seq<StatementOutcome<R>>) -> bool {
    &&& env.len() >= 2
    &&& (env[1].status matches Some(s) ==> s@ == "OK"@)
    &&& env[1].result == Some(ResultPayload::<R>::Null)
}

/// Law: fetching an empty table is never an error and is repeatable —
/// decoding the envelopes of any two empty-table fetches yields the
/// empty record sequence both times.
pub proof fn lemma_empty_fetch_idempotent<R>(
    env1: Seq<StatementOutcome<R>>,
    env2: Seq<StatementOutcome<R>>,
)
    requires
        empty_table_response(env1),
        empty_table_response(env2),
    ensures
        select_verdict(env1) == StatementVerdict::<R>::Rows(Seq::<R>::empty()),
        select_verdict(env1) == select_verdict(env2),
{
}

} // verus!
