use vstd::prelude::*;

use crate::ids::{is_random_uuid, parse_user_id, uuid_text_value};
use crate::models::{users_view, CreateUserRequest, User};
use crate::services::{
    self, empty_fields_message, not_found_message, request_is_blank, ServiceError,
};
use crate::store::{duplicate_key_message, has_id, lookup, UserStore};

verus! {

/// The body of a response: plain text, one user or a list of users.
#[derive(Debug)]
pub enum Body {
    Text(String),
    Record(User),
    Records(Vec<User>),
}

/// An HTTP response: a status code and a body.
#[derive(Debug)]
pub struct Response {
    pub status: u16,
    pub body: Body,
}

impl Response {
    /// A plain-text response with the given status and text.
    pub open spec fn is_text(&self, status: u16, text: Seq<char>) -> bool {
        &&& self.status == status
        &&& match self.body {
            Body::Text(t) => t@ == text,
            _ => false,
        }
    }
}

/// The status of a refused input.
pub const BAD_REQUEST: u16 = 400;

/// The status of a storage failure.
pub const INTERNAL_SERVER_ERROR: u16 = 500;

/// The status of a success.
pub const OK: u16 = 200;

/// The text of a path identifier that is no UUID.
pub open spec fn invalid_id_message() -> Seq<char> {
    "Invalid user ID"@
}

/// The text of the liveness probe.
pub open spec fn hello_message() -> Seq<char> {
    "Hello, World!"@
}

/// The response to a service error: 400 for refused input, 500 for storage,
/// with the error's message as the body.
pub fn respond_with_error(err: ServiceError) -> (r: Response)
    ensures
        err is ValidationError ==> r.is_text(400, err.message()),
        err is DatabaseError ==> r.is_text(500, err.message()),
{
    match err {
        ServiceError::ValidationError(msg) => Response { status: BAD_REQUEST, body: Body::Text(msg) },
        ServiceError::DatabaseError(msg) => Response {
            status: INTERNAL_SERVER_ERROR,
            body: Body::Text(msg),
        },
    }
}

/// The response to an outcome of the service that yields one user.
pub fn respond_with_user(result: Result<User, ServiceError>) -> (r: Response)
    ensures
        match result {
            Ok(u) => r.status == 200 && r.body == Body::Record(u),
            Err(e) => {
                &&& e is ValidationError ==> r.is_text(400, e.message())
                &&& e is DatabaseError ==> r.is_text(500, e.message())
            },
        },
{
    match result {
        Ok(u) => Response { status: OK, body: Body::Record(u) },
        Err(e) => respond_with_error(e),
    }
}

/// The text of a failed listing: the error's `Debug` form after `Error: `.
pub open spec fn listing_error_text(e: ServiceError) -> Seq<char> {
    "Error: "@ + e.debug_form()
}

/// The response to an outcome of the service that yields a list of users;
/// any failure is a 500.
pub fn respond_with_users(result: Result<Vec<User>, ServiceError>) -> (r: Response)
    ensures
        match result {
            Ok(v) => r.status == 200 && r.body == Body::Records(v),
            Err(e) => r.is_text(500, listing_error_text(e)),
        },
{
    match result {
        Ok(v) => Response { status: OK, body: Body::Records(v) },
        Err(e) => {
            let form = e.debug_text();
            let text = String::from_str("Error: ").concat(form.as_str());
            Response { status: INTERNAL_SERVER_ERROR, body: Body::Text(text) }
        },
    }
}

/// `POST /users`: creates a user from the request body.
pub fn create_user(db: &mut UserStore, user_data: CreateUserRequest) -> (r: Response)
    requires
        old(db).well_formed(),
    ensures
        final(db).well_formed(),
        request_is_blank(user_data.name@, user_data.email@) ==> {
            &&& r.is_text(400, empty_fields_message())
            &&& final(db)@ == old(db)@
        },
        !request_is_blank(user_data.name@, user_data.email@) ==> {
            ||| {
                &&& r.status == 200
                &&& r.body matches Body::Record(u)
                &&& u.name@ == user_data.name@
                &&& u.email@ == user_data.email@
                &&& is_random_uuid(u.id)
                &&& !has_id(old(db)@, u.id)
                &&& final(db)@ == old(db)@.push(u@)
            }
            ||| {
                &&& r.is_text(500, duplicate_key_message())
                &&& final(db)@ == old(db)@
                &&& exists|i: int| 0 <= i < old(db)@.len() && is_random_uuid(old(db)@[i].id)
            }
        },
        !request_is_blank(user_data.name@, user_data.email@) && old(db)@.len() == 0 ==> r.status
            == 200,
{
    respond_with_user(services::create_user(db, user_data))
}

/// `GET /users`: every stored user.
pub fn get_users(db: &UserStore) -> (r: Response)
    ensures
        r.status == 200,
        r.body matches Body::Records(v) && users_view(v@) == db@,
{
    respond_with_users(services::get_all_users(db))
}

/// Reads a path segment as a user identifier: `None` where it is no UUID.
pub fn read_user_id(user_id: &str) -> (r: Option<u128>)
    ensures
        r == uuid_text_value(user_id@),
{
    parse_user_id(user_id)
}

/// The response to a path identifier that is no UUID.
pub fn invalid_id() -> (r: Response)
    ensures
        r.is_text(400, invalid_id_message()),
{
    Response { status: BAD_REQUEST, body: Body::Text(String::from_str("Invalid user ID")) }
}

/// The identifier that a `GET /users/{id}` path segment names, or the
/// response that refuses the segment.
pub fn find_target(user_id: &str) -> (r: Result<u128, Response>)
    ensures
        match uuid_text_value(user_id@) {
            None => r is Err && r->Err_0.is_text(400, invalid_id_message()),
            Some(id) => r == Ok::<u128, Response>(id),
        },
{
    match read_user_id(user_id) {
        None => Err(invalid_id()),
        Some(id) => Ok(id),
    }
}

/// `GET /users/{id}` once the path segment has been read as a UUID:
/// `None` where it could not be.
pub fn find_user_parsed(db: &UserStore, parsed: Option<u128>) -> (r: Response)
    requires
        db.well_formed(),
    ensures
        match parsed {
            None => r.is_text(400, invalid_id_message()),
            Some(id) => match lookup(db@, id) {
                Some(u) => r.status == 200 && (r.body matches Body::Record(v) && v@ == u),
                None => r.is_text(500, not_found_message()),
            },
        },
{
    match parsed {
        None => invalid_id(),
        Some(id) => respond_with_user(services::find_user_by_id(db, id)),
    }
}

/// `GET /users/{id}`: the user whose identifier the path segment spells.
pub fn find_user(db: &UserStore, user_id: &str) -> (r: Response)
    requires
        db.well_formed(),
    ensures
        match uuid_text_value(user_id@) {
            None => r.is_text(400, invalid_id_message()),
            Some(id) => match lookup(db@, id) {
                Some(u) => r.status == 200 && (r.body matches Body::Record(v) && v@ == u),
                None => r.is_text(500, not_found_message()),
            },
        },
{
    let parsed = read_user_id(user_id);
    find_user_parsed(db, parsed)
}

/// `GET /hello`: the liveness probe.
pub fn hello_world() -> (r: Response)
    ensures
        r.is_text(200, hello_message()),
{
    Response { status: OK, body: Body::Text(String::from_str("Hello, World!")) }
}

} // verus!
