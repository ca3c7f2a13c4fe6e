use vstd::prelude::*;
use vstd::string::*;
use crate::column::{Cell, all_decode, convert_rows, converted};
use crate::statement::{StatementKind, classify, kind_of};
use crate::value::{JsonValue, bind_texts, param_text_of};

verus! {

/// A request to run one statement with positional parameters.
#[derive(Debug, PartialEq, Eq)]
pub struct Execute {
    pub query: String,
    pub parameters: Vec<JsonValue>,
}

/// The outcome of a request: an error, an affected-row count, or the rows of
/// a row-producing statement.
#[derive(Debug, PartialEq, Eq)]
pub struct DatabaseResult {
    pub error: Option<String>,
    pub rows_affected: Option<u64>,
    pub rows: Option<Vec<Vec<JsonValue>>>,
}

/// A result and the status with which it is answered.
#[derive(Debug, PartialEq, Eq)]
pub struct Response {
    pub status: u16,
    pub body: DatabaseResult,
}

/// The status of a successful answer.
pub const STATUS_OK: u16 = 200;

/// The status of an answer that reports a failure.
pub const STATUS_SERVER_ERROR: u16 = 500;

/// What to run: the statement's kind and the text of each parameter, in
/// slot order.
#[derive(Debug, PartialEq, Eq)]
pub struct Plan {
    pub kind: StatementKind,
    pub texts: Vec<String>,
}

/// Exactly one of the three shapes of a result is populated.
pub open spec fn one_shape(b: DatabaseResult) -> bool {
    ||| (b.error is Some && b.rows_affected is None && b.rows is None)
    ||| (b.error is None && b.rows_affected is Some && b.rows is None)
    ||| (b.error is None && b.rows_affected is None && b.rows is Some)
}

/// The answer carries exactly an error whose text is `msg`.
pub open spec fn is_error_answer(r: Response, msg: Seq<char>) -> bool {
    &&& r.status == STATUS_SERVER_ERROR
    &&& r.body.error matches Some(e) && e@ == msg
    &&& r.body.rows_affected is None
    &&& r.body.rows is None
}

/// The answer carries rows, and nothing else.
pub open spec fn is_rows_answer(r: Response) -> bool {
    &&& r.status == STATUS_OK
    &&& r.body.error is None
    &&& r.body.rows_affected is None
    &&& r.body.rows is Some
}

/// The message of a pool failure that comes with no detail of its own.
pub open spec fn pool_fallback() -> Seq<char> {
    seq!['c', 'o', 'n', 'n', 'e', 'c', 't', 'i', 'o', 'n', ' ', 'p', 'o', 'o', 'l', ' ',
        'f', 'a', 'i', 'l', 'e', 'd']
}

/// The message of a driver failure that comes with no detail of its own.
pub open spec fn driver_fallback() -> Seq<char> {
    seq!['s', 't', 'a', 't', 'e', 'm', 'e', 'n', 't', ' ', 'f', 'a', 'i', 'l', 'e', 'd']
}

/// The error text of a failure: its detail, or the fallback where the
/// detail is empty.
pub open spec fn detail_or(detail: Seq<char>, fallback: Seq<char>) -> Seq<char> {
    if detail.len() == 0 { fallback } else { detail }
}

/// How the error text of a decode failure begins.
pub open spec fn decode_prefix() -> Seq<char> {
    seq!['c', 'o', 'l', 'u', 'm', 'n', ' ', 'd', 'e', 'c', 'o', 'd', 'e', ' ', 'f', 'a', 'i', 'l',
        'e', 'd', ':', ' ']
}

/// The error text of a command for which the driver reported no count.
pub open spec fn no_count_message() -> Seq<char> {
    seq!['n', 'o', ' ', 'a', 'f', 'f', 'e', 'c', 't', 'e', 'd', '-', 'r', 'o', 'w', ' ', 'c',
        'o', 'u', 'n', 't', ' ', 'r', 'e', 'p', 'o', 'r', 't', 'e', 'd']
}

fn error_response(msg: String) -> (r: Response)
    ensures
        is_error_answer(r, msg@),
{
    Response {
        status: STATUS_SERVER_ERROR,
        body: DatabaseResult { error: Some(msg), rows_affected: None, rows: None },
    }
}

/// Decides what to run for a request: its kind, and each parameter bound as
/// its text to the slot of the same position.
pub fn plan(req: &Execute) -> (r: Plan)
    ensures
        r.kind == kind_of(req.query@),
        r.texts@.len() == req.parameters@.len(),
        forall|i: int| 0 <= i < req.parameters@.len()
            ==> #[trigger] r.texts@[i]@ == param_text_of(req.parameters@[i]@),
{
    Plan { kind: classify(req.query.as_str()), texts: bind_texts(&req.parameters) }
}

fn failure_response(detail: &str, fallback: &str) -> (r: Response)
    ensures
        is_error_answer(r, detail_or(detail@, fallback@)),
{
    if detail.unicode_len() == 0 {
        error_response(String::from_str(fallback))
    } else {
        error_response(String::from_str(detail))
    }
}

/// The answer when no connection could be taken from the pool: a server
/// error carrying the pool's detail, whatever the statement.
pub fn pool_failure(detail: &str) -> (r: Response)
    ensures
        one_shape(r.body),
        is_error_answer(r, detail_or(detail@, pool_fallback())),
        r.body.error matches Some(e) && e@.len() > 0,
{
    let fallback = "connection pool failed";
    proof { reveal_strlit("connection pool failed"); }
    assert(fallback@ =~= pool_fallback());
    failure_response(detail, fallback)
}

/// The answer when the driver failed to prepare or run the statement: a
/// server error carrying the driver's detail.
pub fn driver_failure(detail: &str) -> (r: Response)
    ensures
        one_shape(r.body),
        is_error_answer(r, detail_or(detail@, driver_fallback())),
        r.body.error matches Some(e) && e@.len() > 0,
{
    let fallback = "statement failed";
    proof { reveal_strlit("statement failed"); }
    assert(fallback@ =~= driver_fallback());
    failure_response(detail, fallback)
}

/// The answer to a command: the first affected-row count that the driver
/// reported; an error when it reported none.
pub fn command_result(counts: &Vec<u64>) -> (r: Response)
    ensures
        one_shape(r.body),
        counts@.len() > 0 ==> r.status == STATUS_OK && r.body.error is None
            && r.body.rows_affected == Some(counts@[0]) && r.body.rows is None,
        counts@.len() == 0 ==> is_error_answer(r, no_count_message()),
{
    if counts.len() > 0 {
        Response {
            status: STATUS_OK,
            body: DatabaseResult { error: None, rows_affected: Some(counts[0]), rows: None },
        }
    } else {
        let msg = String::from_str("no affected-row count reported");
        proof { reveal_strlit("no affected-row count reported"); }
        assert(msg@ =~= no_count_message());
        error_response(msg)
    }
}

/// The answer to a row-producing statement: the rows of the last result set
/// that the driver returned, converted cell by cell (no rows when it
/// returned no set); a decode failure is reported as an error.
pub fn query_result(sets: &Vec<Vec<Vec<Cell>>>) -> (r: Response)
    ensures
        one_shape(r.body),
        sets@.len() == 0 ==> is_rows_answer(r) && r.body.rows.unwrap()@.len() == 0,
        sets@.len() > 0 && all_decode(sets@.last()@) ==> is_rows_answer(r)
            && converted(sets@.last()@, r.body.rows.unwrap()@),
        sets@.len() > 0 && sets@.last()@.len() == 0 ==> is_rows_answer(r)
            && r.body.rows.unwrap()@.len() == 0,
        sets@.len() > 0 && !all_decode(sets@.last()@) ==> r.status == STATUS_SERVER_ERROR
            && r.body.rows_affected is None && r.body.rows is None && r.body.error is Some
            && decode_prefix().is_prefix_of(r.body.error.unwrap()@),
{
    if sets.len() == 0 {
        return Response {
            status: STATUS_OK,
            body: DatabaseResult { error: None, rows_affected: None, rows: Some(Vec::new()) },
        };
    }
    let last = &sets[sets.len() - 1];
    match convert_rows(last) {
        Ok(rows) => Response {
            status: STATUS_OK,
            body: DatabaseResult { error: None, rows_affected: None, rows: Some(rows) },
        },
        Err(e) => {
            let prefix = String::from_str("column decode failed: ");
            proof { reveal_strlit("column decode failed: "); }
            let msg = prefix.concat(e.detail.as_str());
            assert(msg@.subrange(0, decode_prefix().len() as int) =~= decode_prefix());
            error_response(msg)
        },
    }
}

} // verus!
