//! The service itself: from a request to the storage step it calls for, and
//! from the outcome of that step to the reply.

use vstd::prelude::*;
use vstd::utf8::{decode_utf8, valid_utf8};
use crate::ids::{assignable, fresh_id};
use crate::json::{get_user_request_body, user_json, user_of_payload, user_to_json};
use crate::model::{ApiError, User};
use crate::number::{decimal_i32, parse_i32};
use crate::reply::{
    created_text,
    error_reply,
    error_status,
    error_text,
    no_route_reply,
    no_route_text,
    Response,
    Status,
};
use crate::request::{
    body_of,
    get_id,
    id_segment,
    method_of,
    parse_request,
    path_of,
    Request,
};
use crate::table::{accepts, found, inserted, Rows, UserTable};
use crate::text::{has_prefix, same_text, starts_with};

verus! {

/// The text of a received buffer: its UTF-8 decoding, in which every
/// invalid sequence is replaced by U+FFFD.
pub uninterp spec fn lossy_text(bytes: Seq<u8>) -> Seq<char>;

/// `String::from_utf8_lossy`, made an owned string. The result depends on
/// the bytes alone, and valid UTF-8 is decoded as it stands.
#[verifier::external_body]
fn decode_lossy(bytes: &[u8]) -> (text: String)
    ensures
        text@ == lossy_text(bytes@),
        valid_utf8(bytes@) ==> text@ == decode_utf8(bytes@),
{
    String::from_utf8_lossy(bytes).into_owned()
}

/// The handlers a request can be routed to.
#[derive(Debug, Clone, Copy, PartialEq, Eq, Structural)]
pub enum Route {
    /// Create a user from the body.
    Create,
    /// Read the user whose id the path names.
    Read,
    /// No handler.
    Unknown,
}

/// The storage step a request calls for, or the reply where it calls for
/// none.
#[derive(Debug, Clone, PartialEq, Eq)]
pub enum Step {
    /// Insert this user, whose id has been assigned.
    Insert(User),
    /// Look up the user with this id.
    Select(i32),
    /// Answer at once.
    Reply(Response),
}

/// The routing rule, first match first: `POST` on a path that begins with
/// `/users` creates, `GET` on one that begins with `/users/` reads.
pub open spec fn route_of(method: Seq<char>, path: Seq<char>) -> Route {
    if method == "POST"@ && starts_with(path, "/users"@) {
        Route::Create
    } else if method == "GET"@ && starts_with(path, "/users/"@) {
        Route::Read
    } else {
        Route::Unknown
    }
}

/// The route of a request text.
pub open spec fn route_of_text(text: Seq<char>) -> Route {
    route_of(method_of(text), path_of(text))
}

/// Whether `r` reports `err`.
pub open spec fn reports(r: Response, err: ApiError) -> bool {
    r.status == error_status(err) && r.body@ == error_text(err)
}

/// Whether `step` is right for a read of `text`: a lookup of the id that
/// the id segment writes, or the miss reply where it writes none.
pub open spec fn read_step_for(text: Seq<char>, step: Step) -> bool {
    match decimal_i32(id_segment(text)) {
        Some(id) => step == Step::Select(id as i32),
        None => step matches Step::Reply(r) && reports(r, ApiError::NotFound),
    }
}

/// Whether `step` is right for a create with the payload outcome `parsed`
/// and the drawn identifier `id`.
pub open spec fn create_step_for(parsed: Result<User, ApiError>, id: i32, step: Step) -> bool {
    match parsed {
        Ok(u) => step matches Step::Insert(v) && v.id == Some(id) && v.name@ == u.name@ && v.email@
            == u.email@,
        Err(_) => step matches Step::Reply(r) && reports(r, ApiError::MalformedPayload),
    }
}

/// Routes a parsed request.
pub fn route(request: &Request) -> (r: Route)
    ensures
        r == route_of(request.method@, request.path@),
{
    if same_text(request.method.as_str(), "POST") && has_prefix(request.path.as_str(), "/users") {
        Route::Create
    } else if same_text(request.method.as_str(), "GET") && has_prefix(
        request.path.as_str(),
        "/users/",
    ) {
        Route::Read
    } else {
        Route::Unknown
    }
}

/// Whether `step` is right for a create from the request `text`: an insert
/// of the user its body describes, under an assignable id, or the
/// malformed-payload reply where it describes none.
pub open spec fn create_step_from(text: Seq<char>, step: Step) -> bool {
    match user_of_payload(body_of(text)) {
        Ok(u) => step matches Step::Insert(v) && v.id matches Some(id) && assignable(id as int)
            && v.name@ == u.name && v.email@ == u.email,
        Err(_) => step matches Step::Reply(r) && reports(r, ApiError::MalformedPayload),
    }
}

/// Whether `step` is right for the request `text`.
pub open spec fn step_for(text: Seq<char>, step: Step) -> bool {
    match route_of_text(text) {
        Route::Unknown => step matches Step::Reply(r) && r.status == Status::NotFound && r.body@
            == no_route_text(),
        Route::Read => read_step_for(text, step),
        Route::Create => create_step_from(text, step),
    }
}

/// The step for a create, given what the payload parsed to and the id
/// drawn for the new user. The payload's own id is ignored.
pub fn create_step(parsed: Result<User, ApiError>, id: i32) -> (step: Step)
    ensures
        create_step_for(parsed, id, step),
{
    match parsed {
        Ok(u) => Step::Insert(User { id: Some(id), name: u.name, email: u.email }),
        Err(_) => Step::Reply(error_reply(ApiError::MalformedPayload)),
    }
}

/// The step for a read of the request `text`.
pub fn read_step(text: &str) -> (step: Step)
    ensures
        read_step_for(text@, step),
{
    match parse_i32(get_id(text)) {
        Some(id) => Step::Select(id),
        None => Step::Reply(error_reply(ApiError::NotFound)),
    }
}

/// Decides what a request calls for. An unrouted request is answered at
/// once; a read becomes a lookup of the id in its path, or the miss reply
/// where that is no integer; a create becomes an insert under a freshly
/// drawn id, or the malformed-payload reply.
pub fn plan(text: &str) -> (step: Step)
    ensures
        step_for(text@, step),
{
    let request = parse_request(text);
    match route(&request) {
        Route::Create => {
            let id = fresh_id();
            create_step(get_user_request_body(text), id)
        },
        Route::Read => read_step(text),
        Route::Unknown => Step::Reply(no_route_reply()),
    }
}

/// Decides what a received buffer calls for: `plan` on its lossy decoding,
/// which for valid UTF-8 is the text it encodes.
pub fn receive(buffer: &[u8]) -> (step: Step)
    ensures
        step_for(lossy_text(buffer@), step),
        valid_utf8(buffer@) ==> step_for(decode_utf8(buffer@), step),
{
    let text = decode_lossy(buffer);
    plan(text.as_str())
}

/// The reply to a create, given what the store said. Success is a 200;
/// every failure is a 500 that carries the failure's message.
pub fn create_reply(outcome: Result<i32, ApiError>) -> (r: Response)
    ensures
        match outcome {
            Ok(_) => r.status == Status::Success && r.body@ == created_text(),
            Err(e) => r.status == Status::InternalError && r.body@ == error_text(e),
        },
{
    match outcome {
        Ok(_) => Response { status: Status::Success, body: String::from_str("User created") },
        Err(e) => Response { status: Status::InternalError, body: error_reply(e).body },
    }
}

/// The reply to a found user, given its JSON text; a storage error where
/// there is none.
pub fn found_reply(json: Option<String>) -> (r: Response)
    ensures
        match json {
            Some(t) => r.status == Status::Success && r.body@ == t@,
            None => reports(r, ApiError::StorageError),
        },
{
    match json {
        Some(t) => Response { status: Status::Success, body: t },
        None => error_reply(ApiError::StorageError),
    }
}

/// The reply to a read, given what the store said. A miss is a 404, any
/// other failure a 500, and a user is a 200 with its JSON object.
pub fn read_reply(outcome: Result<User, ApiError>) -> (r: Response)
    ensures
        match outcome {
            Ok(u) => r.status == Status::Success && r.body@ == user_json(u@),
            Err(e) => reports(r, e),
        },
{
    match outcome {
        Ok(u) => found_reply(user_to_json(&u)),
        Err(e) => error_reply(e),
    }
}

/// Whether `r` is right for `step` carried out on the table `before`.
pub open spec fn reply_for(before: Rows, step: Step, r: Response) -> bool {
    match step {
        Step::Reply(given) => r.status == given.status && r.body@ == given.body@,
        Step::Insert(u) => if accepts(before, u@) {
            r.status == Status::Success && r.body@ == created_text()
        } else {
            r.status == Status::InternalError && r.body@ == error_text(ApiError::StorageError)
        },
        Step::Select(id) => match found(before, id as int) {
            Ok(u) => r.status == Status::Success && r.body@ == user_json(u),
            Err(e) => reports(r, e),
        },
    }
}

/// The table after `step` was carried out on `before`.
pub open spec fn table_after(before: Rows, step: Step) -> Rows {
    match step {
        Step::Insert(u) => inserted(before, u@),
        _ => before,
    }
}

/// A read after a create gives the created user: where an insert of `u`
/// under `id` was accepted, the reply to a lookup of `id` is a 200 whose
/// body is the JSON object of `u`.
pub proof fn lemma_read_after_create(before: Rows, u: User, id: i32, r: Response)
    requires
        u.id == Some(id),
        accepts(before, u@),
        reply_for(table_after(before, Step::Insert(u)), Step::Select(id), r),
    ensures
        r.status == Status::Success,
        r.body@ == user_json(u@),
{
}

/// A lookup is answered with a 200 exactly where the table holds the id,
/// and with the miss reply otherwise.
pub proof fn lemma_read_status(before: Rows, id: i32, r: Response)
    requires
        reply_for(before, Step::Select(id), r),
    ensures
        r.status == Status::Success <==> before.contains_key(id as int),
        before.contains_key(id as int) ==> r.body@ == user_json(before[id as int]),
        !before.contains_key(id as int) ==> reports(r, ApiError::NotFound),
{
}

/// A read request is answered with a 200 exactly where its id segment
/// writes an integer that the table holds; the body is then the JSON
/// object of that row, and otherwise the reply is the miss reply.
pub proof fn lemma_read_request(text: Seq<char>, before: Rows, step: Step, r: Response)
    requires
        route_of_text(text) == Route::Read,
        step_for(text, step),
        reply_for(before, step, r),
    ensures
        r.status == Status::Success <==> (decimal_i32(id_segment(text)) matches Some(id)
            && before.contains_key(id)),
        r.status == Status::Success ==> r.body@ == user_json(
            before[decimal_i32(id_segment(text)).unwrap()],
        ),
        r.status != Status::Success ==> reports(r, ApiError::NotFound),
{
}

/// Carries out `step` on a table in memory and gives the reply.
pub fn perform(table: &mut UserTable, step: Step) -> (r: Response)
    ensures
        final(table)@ == table_after(old(table)@, step),
        reply_for(old(table)@, step, r),
{
    match step {
        Step::Reply(given) => given,
        Step::Insert(u) => create_reply(table.insert(u)),
        Step::Select(id) => read_reply(table.get_user_by_id(id)),
    }
}

/// Serves one request against a table in memory: plans it, carries the
/// step out and gives the reply. Only a create can change the table, and
/// only by one row under an assignable id.
pub fn serve(table: &mut UserTable, text: &str) -> (r: Response)
    ensures
        exists|step: Step| #[trigger]
            step_for(text@, step) && final(table)@ == table_after(old(table)@, step) && reply_for(
                old(table)@,
                step,
                r,
            ),
        route_of_text(text@) != Route::Create ==> final(table)@ == old(table)@,
{
    let step = plan(text);
    let ghost planned = step;
    let r = perform(table, step);
    assert(step_for(text@, planned));
    r
}

} // verus!
