//! The request handlers, each split into steps: a step takes the request, or
//! the outcome of the one store statement that the previous step asked for,
//! and returns the next statement to run or the reply.
use vstd::prelude::*;
use crate::model::{Author, CreateAuthorDto, Date, UpdateAuthorDto, opt_view};
use crate::validation::{FieldError, create_violations, update_violations, validate_create, validate_update};

verus! {

pub const OK: u16 = 200;
pub const CREATED: u16 = 201;
pub const NO_CONTENT: u16 = 204;
pub const BAD_REQUEST: u16 = 400;
pub const NOT_FOUND: u16 = 404;
pub const CONFLICT: u16 = 409;
pub const INTERNAL_SERVER_ERROR: u16 = 500;

/// An error reported by the store.
#[derive(Clone, Debug)]
pub enum StoreError {
    /// The database rejected the statement; `constraint` names the
    /// constraint that it violated, if any.
    Database { constraint: Option<String>, text: String },
    /// Any other failure: connectivity, pool timeout, decoding.
    Other { text: String },
}

impl StoreError {
    /// The error's text.
    pub fn text(&self) -> (r: String)
        ensures
            r@ == self.text_view(),
    {
        match self {
            StoreError::Database { text, .. } => text.clone(),
            StoreError::Other { text } => text.clone(),
        }
    }

    pub open spec fn text_view(&self) -> Seq<char> {
        match self {
            StoreError::Database { text, .. } => text@,
            StoreError::Other { text } => text@,
        }
    }
}

/// A store error is a conflict when the store names a violated constraint.
pub open spec fn is_conflict(e: StoreError) -> bool {
    e matches StoreError::Database { constraint: Some(_), .. }
}

/// Body of a reply.
#[derive(Clone, Debug)]
pub enum Body {
    Empty,
    /// `{"message": ..}`
    Message { message: String },
    /// `{"message": .., "error": ..}`
    Failure { message: String, error: String },
    /// `{"message": .., "detail": ..}`
    Conflict { message: String, detail: String },
    /// `{"message": .., "errors": ..}`
    Invalid { message: String, errors: Vec<FieldError> },
    /// `{"message": .., "id": ..}`
    Created { message: String, id: i32 },
    /// One author.
    One { author: Author },
    /// An array of authors.
    Many { authors: Vec<Author> },
}

/// A status code and a body.
#[derive(Clone, Debug)]
pub struct Reply {
    pub status: u16,
    pub body: Body,
}

/// What a handler asks for next.
#[derive(Clone, Debug)]
pub enum Action {
    /// Reply now; the store is not touched.
    Respond { reply: Reply },
    /// Read the row with this id.
    Fetch { id: i32 },
    /// Insert a row with these fields; the store assigns the id.
    Insert { dto: CreateAuthorDto },
    /// Delete the row with this id.
    Remove { id: i32 },
    /// Overwrite the fields of the row with `author.id`.
    Write { author: Author },
}

/// `r` has status `status` and the body `{"message": m}`.
pub open spec fn is_message(r: Reply, status: u16, m: Seq<char>) -> bool {
    r.status == status && (r.body matches Body::Message { message } && message@ == m)
}

/// `r` has status `status` and the body `{"message": m, "error": err}`.
pub open spec fn is_failure(r: Reply, status: u16, m: Seq<char>, err: Seq<char>) -> bool {
    r.status == status && (r.body matches Body::Failure { message, error } && message@ == m
        && error@ == err)
}

/// `r` is a 409 with the body `{"message": "Constraint violation", "detail": detail}`.
pub open spec fn is_conflict_reply(r: Reply, detail: Seq<char>) -> bool {
    r.status == CONFLICT && (r.body matches Body::Conflict { message, detail: d } && message@
        == "Constraint violation"@ && d@ == detail)
}

/// `a` replies at once with `{"message": m}` and status `status`.
pub open spec fn responds_message(a: Action, status: u16, m: Seq<char>) -> bool {
    a matches Action::Respond { reply } && is_message(reply, status, m)
}

/// `a` replies at once with 400 and the violations `errors`.
pub open spec fn responds_invalid(a: Action, errors: Seq<FieldError>) -> bool {
    a matches Action::Respond { reply } && reply.status == BAD_REQUEST && (
    reply.body matches Body::Invalid { message, errors: v } && message@ == "Validation failed"@
        && v@ == errors)
}

/// The reply to a store error: a conflict carrying the store's text, or a
/// server error with message `m` and that text.
pub open spec fn is_store_failure(r: Reply, e: StoreError, m: Seq<char>) -> bool {
    if is_conflict(e) {
        is_conflict_reply(r, e.text_view())
    } else {
        is_failure(r, INTERNAL_SERVER_ERROR, m, e.text_view())
    }
}

fn text(s: &str) -> (r: String)
    ensures
        r@ == s@,
{
    String::from_str(s)
}

fn reply(status: u16, body: Body) -> (r: Reply)
    ensures
        r == (Reply { status, body }),
{
    Reply { status, body }
}

fn message(status: u16, m: &str) -> (r: Reply)
    ensures
        is_message(r, status, m@),
{
    reply(status, Body::Message { message: text(m) })
}

fn failure(status: u16, m: &str, error: String) -> (r: Reply)
    ensures
        is_failure(r, status, m@, error@),
{
    reply(status, Body::Failure { message: text(m), error })
}

fn invalid(errors: Vec<FieldError>) -> (r: Action)
    ensures
        responds_invalid(r, errors@),
{
    Action::Respond {
        reply: reply(BAD_REQUEST, Body::Invalid { message: text("Validation failed"), errors }),
    }
}

fn invalid_id() -> (r: Action)
    ensures
        responds_message(r, BAD_REQUEST, "ID must be positive i32"@),
{
    Action::Respond { reply: message(BAD_REQUEST, "ID must be positive i32") }
}

/// The reply to a store error, with `m` as the message of a server error.
fn store_failure(e: StoreError, m: &str) -> (r: Reply)
    ensures
        is_store_failure(r, e, m@),
{
    if conflicts(&e) {
        reply(CONFLICT, Body::Conflict { message: text("Constraint violation"), detail: e.text() })
    } else {
        failure(INTERNAL_SERVER_ERROR, m, e.text())
    }
}

/// Whether a store error names a violated constraint.
pub fn conflicts(e: &StoreError) -> (r: bool)
    ensures
        r == is_conflict(*e),
{
    match e {
        StoreError::Database { constraint: Some(_), .. } => true,
        _ => false,
    }
}

/// List: the reply to the result of reading every row.
pub fn get_all(result: Result<Vec<Author>, StoreError>) -> (r: Reply)
    ensures
        result is Ok ==> r.status == OK && (r.body matches Body::Many { authors }
            && authors@ == result->Ok_0@),
        result matches Err(e) ==> is_failure(
            r,
            INTERNAL_SERVER_ERROR,
            "Failed to fetch authors"@,
            e.text_view(),
        ),
{
    match result {
        Ok(authors) => reply(OK, Body::Many { authors }),
        Err(e) => failure(INTERNAL_SERVER_ERROR, "Failed to fetch authors", e.text()),
    }
}

/// Get by id, first step: a non-positive id is refused without a read.
pub fn get_by_id(id: i32) -> (r: Action)
    ensures
        id < 1 ==> responds_message(r, BAD_REQUEST, "ID must be positive i32"@),
        id >= 1 ==> r == (Action::Fetch { id }),
{
    if id < 1 {
        invalid_id()
    } else {
        Action::Fetch { id }
    }
}

/// Get by id, second step: the reply to the read of the row.
pub fn get_by_id_reply(result: Result<Option<Author>, StoreError>) -> (r: Reply)
    ensures
        result matches Ok(Some(a)) ==> r.status == OK && (r.body matches Body::One { author }
            && author@ == a@),
        result matches Ok(None) ==> is_message(r, NOT_FOUND, "Author not found"@),
        result matches Err(e) ==> is_failure(
            r,
            INTERNAL_SERVER_ERROR,
            "Database error"@,
            e.text_view(),
        ),
{
    match result {
        Ok(Some(author)) => reply(OK, Body::One { author }),
        Ok(None) => message(NOT_FOUND, "Author not found"),
        Err(e) => failure(INTERNAL_SERVER_ERROR, "Database error", e.text()),
    }
}

/// Create, first step: an invalid payload is refused without an insert.
pub fn create(dto: CreateAuthorDto) -> (r: Action)
    ensures
        create_violations(dto).len() == 0 ==> (r matches Action::Insert { dto: d } && d == dto),
        create_violations(dto).len() != 0 ==> responds_invalid(r, create_violations(dto)),
{
    match validate_create(&dto) {
        Ok(()) => Action::Insert { dto },
        Err(errors) => invalid(errors),
    }
}

/// Create, second step: the reply to the insert, which returned the new id.
pub fn create_reply(result: Result<i32, StoreError>) -> (r: Reply)
    ensures
        result matches Ok(id) ==> r.status == CREATED && (r.body matches Body::Created {
            message,
            id: i,
        } && message@ == "Author created successfully"@ && i == id),
        result matches Err(e) ==> is_store_failure(r, e, "Failed to create author"@),
{
    match result {
        Ok(id) => reply(CREATED, Body::Created { message: text("Author created successfully"), id }),
        Err(e) => store_failure(e, "Failed to create author"),
    }
}

/// Delete, first step: a non-positive id is refused without a delete.
pub fn delete(id: i32) -> (r: Action)
    ensures
        id < 1 ==> responds_message(r, BAD_REQUEST, "ID must be positive i32"@),
        id >= 1 ==> r == (Action::Remove { id }),
{
    if id < 1 {
        invalid_id()
    } else {
        Action::Remove { id }
    }
}

/// The status of a delete or an update, given how many rows it affected.
pub open spec fn affected_status(result: Result<u64, StoreError>, none: u16) -> u16 {
    match result {
        Ok(n) => if n == 1 { NO_CONTENT } else { none },
        Err(e) => if is_conflict(e) { CONFLICT } else { INTERNAL_SERVER_ERROR },
    }
}

/// Delete, second step: the reply to the delete, given the rows it removed.
pub fn delete_reply(result: Result<u64, StoreError>) -> (r: Reply)
    ensures
        r.status == affected_status(result, NOT_FOUND),
        result == Ok::<u64, StoreError>(1) ==> r.body is Empty,
        result matches Ok(n) ==> (n != 1 ==> is_message(r, NOT_FOUND, "Author not found"@)),
        result matches Err(e) ==> is_store_failure(r, e, "Failed to delete author"@),
{
    match result {
        Ok(n) => {
            if n == 1 {
                reply(NO_CONTENT, Body::Empty)
            } else {
                message(NOT_FOUND, "Author not found")
            }
        },
        Err(e) => store_failure(e, "Failed to delete author"),
    }
}

/// The supplied value if there is one, else the one kept.
pub open spec fn coalesce<T>(supplied: Option<T>, kept: T) -> T {
    match supplied {
        Some(v) => v,
        None => kept,
    }
}

/// The row that a partial update makes of an existing one.
pub open spec fn merged(existing: crate::model::AuthorView, dto: UpdateAuthorDto) -> crate::model::AuthorView {
    crate::model::AuthorView {
        id: existing.id,
        name: coalesce(opt_view(dto.name), existing.name),
        email: coalesce(opt_view(dto.email), existing.email),
        date_of_birth: match dto.date_of_birth {
            Some(d) => Some(d),
            None => existing.date_of_birth,
        },
    }
}

fn or_text(supplied: Option<String>, kept: String) -> (r: String)
    ensures
        r@ == coalesce(opt_view(supplied), kept@),
{
    match supplied {
        Some(v) => v,
        None => kept,
    }
}

fn or_date(supplied: Option<Date>, kept: Option<Date>) -> (r: Option<Date>)
    ensures
        r == (match supplied { Some(d) => Some(d), None => kept }),
{
    match supplied {
        Some(d) => Some(d),
        None => kept,
    }
}

/// Merges a partial update over an existing row, field by field.
pub fn merge(existing: Author, dto: UpdateAuthorDto) -> (r: Author)
    ensures
        r@ == merged(existing@, dto),
{
    Author {
        id: existing.id,
        name: or_text(dto.name, existing.name),
        email: or_text(dto.email, existing.email),
        date_of_birth: or_date(dto.date_of_birth, existing.date_of_birth),
    }
}

/// Partial update, first step: a non-positive id or an invalid field is
/// refused without a read.
pub fn patch_update(id: i32, dto: &UpdateAuthorDto) -> (r: Action)
    ensures
        id < 1 ==> responds_message(r, BAD_REQUEST, "ID must be positive i32"@),
        id >= 1 && update_violations(*dto).len() != 0 ==> responds_invalid(
            r,
            update_violations(*dto),
        ),
        id >= 1 && update_violations(*dto).len() == 0 ==> r == (Action::Fetch { id }),
{
    if id < 1 {
        return invalid_id();
    }
    match validate_update(dto) {
        Ok(()) => Action::Fetch { id },
        Err(errors) => invalid(errors),
    }
}

/// Partial update, second step: given the read of the existing row, the
/// merged row to write, or the reply.
pub fn patch_update_fetched(dto: UpdateAuthorDto, result: Result<Option<Author>, StoreError>) -> (r: Action)
    ensures
        result matches Ok(Some(a)) ==> (r matches Action::Write { author }
            && author@ == merged(a@, dto)),
        result matches Ok(None) ==> responds_message(r, NOT_FOUND, "Not Found"@),
        result matches Err(e) ==> (r matches Action::Respond { reply } && is_failure(
            reply,
            INTERNAL_SERVER_ERROR,
            "Database error"@,
            e.text_view(),
        )),
{
    match result {
        Ok(Some(existing)) => Action::Write { author: merge(existing, dto) },
        Ok(None) => Action::Respond { reply: message(NOT_FOUND, "Not Found") },
        Err(e) => Action::Respond {
            reply: failure(INTERNAL_SERVER_ERROR, "Database error", e.text()),
        },
    }
}

/// Partial update, third step: the reply to the write, given the rows it
/// changed; anything but exactly one row is a server error.
pub fn patch_update_reply(result: Result<u64, StoreError>) -> (r: Reply)
    ensures
        r.status == affected_status(result, INTERNAL_SERVER_ERROR),
        result == Ok::<u64, StoreError>(1) ==> r.body is Empty,
        result matches Ok(n) ==> (n != 1 ==> is_message(
            r,
            INTERNAL_SERVER_ERROR,
            "Failed to update author"@,
        )),
        result matches Err(e) ==> is_store_failure(r, e, "Internal Server Error"@),
{
    match result {
        Ok(n) => {
            if n == 1 {
                reply(NO_CONTENT, Body::Empty)
            } else {
                message(INTERNAL_SERVER_ERROR, "Failed to update author")
            }
        },
        Err(e) => store_failure(e, "Internal Server Error"),
    }
}

} // verus!
