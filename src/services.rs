use vstd::prelude::*;

use crate::ids::{is_random_uuid, random_user_id};
use crate::quoting::{debug_quote, debug_quoted};
use crate::models::{users_view, CreateUserRequest, User};
use crate::store::{duplicate_key_message, has_id, lookup, UserStore};
use crate::text::{trim_text, trimmed};

verus! {

/// The two kinds of failure of the service.
#[derive(Debug)]
pub enum ServiceError {
    /// Anything that went wrong in the storage layer.
    DatabaseError(String),
    /// The client's input was refused.
    ValidationError(String),
}

impl ServiceError {
    /// This is a storage failure with the given message.
    pub open spec fn is_database(&self, msg: Seq<char>) -> bool {
        match self {
            ServiceError::DatabaseError(m) => m@ == msg,
            ServiceError::ValidationError(_) => false,
        }
    }

    /// This is a refusal of the input with the given message.
    pub open spec fn is_validation(&self, msg: Seq<char>) -> bool {
        match self {
            ServiceError::ValidationError(m) => m@ == msg,
            ServiceError::DatabaseError(_) => false,
        }
    }

    /// The message carried by the error.
    pub open spec fn message(&self) -> Seq<char> {
        match self {
            ServiceError::DatabaseError(m) => m@,
            ServiceError::ValidationError(m) => m@,
        }
    }

    /// The error in Rust's `Debug` form: the variant's name and the message,
    /// quoted and escaped, in parentheses.
    pub open spec fn debug_form(&self) -> Seq<char> {
        match self {
            ServiceError::DatabaseError(m) => "DatabaseError("@ + debug_quoted(m@) + ")"@,
            ServiceError::ValidationError(m) => "ValidationError("@ + debug_quoted(m@) + ")"@,
        }
    }

    /// The error's `Debug` form, given the message already quoted.
    pub fn debug_text_with(&self, quoted: &str) -> (r: String)
        ensures
            r@ == match self {
                ServiceError::DatabaseError(_) => "DatabaseError("@ + quoted@ + ")"@,
                ServiceError::ValidationError(_) => "ValidationError("@ + quoted@ + ")"@,
            },
    {
        let mut out = match self {
            ServiceError::DatabaseError(_) => String::from_str("DatabaseError("),
            ServiceError::ValidationError(_) => String::from_str("ValidationError("),
        };
        out.append(quoted);
        out.append(")");
        out
    }

    /// The error in Rust's `Debug` form, as `debug_form` says.
    pub fn debug_text(&self) -> (r: String)
        ensures
            r@ == self.debug_form(),
    {
        let msg = match self {
            ServiceError::DatabaseError(m) => m.as_str(),
            ServiceError::ValidationError(m) => m.as_str(),
        };
        let quoted = debug_quote(msg);
        self.debug_text_with(quoted.as_str())
    }

    /// The message carried by the error.
    pub fn text(&self) -> (r: String)
        ensures
            r@ == self.message(),
    {
        match self {
            ServiceError::DatabaseError(m) => m.clone(),
            ServiceError::ValidationError(m) => m.clone(),
        }
    }
}

/// The message of a refused creation request.
pub open spec fn empty_fields_message() -> Seq<char> {
    "Name and email cannot be empty"@
}

/// A creation request is refused when its name or its email is blank.
pub open spec fn request_is_blank(name: Seq<char>, email: Seq<char>) -> bool {
    trimmed(name).len() == 0 || trimmed(email).len() == 0
}

/// Decides on a creation request from its name and email with the
/// surrounding white space already removed.
pub fn check_trimmed_fields(name_trimmed: &str, email_trimmed: &str) -> (r: Result<(), ServiceError>)
    ensures
        r is Err <==> (name_trimmed@.len() == 0 || email_trimmed@.len() == 0),
        r is Err ==> r->Err_0.is_validation(empty_fields_message()),
{
    if name_trimmed.unicode_len() == 0 || email_trimmed.unicode_len() == 0 {
        Err(ServiceError::ValidationError(String::from_str("Name and email cannot be empty")))
    } else {
        Ok(())
    }
}

/// Checks that a creation request has a non-blank name and email.
pub fn validate_request(user_data: &CreateUserRequest) -> (r: Result<(), ServiceError>)
    ensures
        r is Err <==> request_is_blank(user_data.name@, user_data.email@),
        r is Err ==> r->Err_0.is_validation(empty_fields_message()),
{
    let name = trim_text(user_data.name.as_str());
    let email = trim_text(user_data.email.as_str());
    check_trimmed_fields(name, email)
}

/// Validates a creation request and gives it a fresh random identifier:
/// the row to insert. Nothing is drawn for a refused request.
pub fn prepare_new_user(user_data: CreateUserRequest) -> (r: Result<User, ServiceError>)
    ensures
        r is Err <==> request_is_blank(user_data.name@, user_data.email@),
        r is Err ==> r->Err_0.is_validation(empty_fields_message()),
        r is Ok ==> r->Ok_0.name@ == user_data.name@ && r->Ok_0.email@ == user_data.email@,
        r is Ok ==> is_random_uuid(r->Ok_0.id),
{
    match validate_request(&user_data) {
        Err(e) => Err(e),
        Ok(()) => {
            let id = random_user_id();
            Ok(User { id, name: user_data.name, email: user_data.email })
        },
    }
}

/// Creates a user in the store: validates the request, draws a fresh
/// identifier and inserts the row, returning it as stored.
pub fn create_user(db: &mut UserStore, user_data: CreateUserRequest) -> (r: Result<User, ServiceError>)
    requires
        old(db).well_formed(),
    ensures
        final(db).well_formed(),
        request_is_blank(user_data.name@, user_data.email@) ==> {
            &&& r is Err
            &&& r->Err_0.is_validation(empty_fields_message())
            &&& final(db)@ == old(db)@
        },
        !request_is_blank(user_data.name@, user_data.email@) ==> match r {
            Ok(u) => {
                &&& u.name@ == user_data.name@
                &&& u.email@ == user_data.email@
                &&& is_random_uuid(u.id)
                &&& !has_id(old(db)@, u.id)
                &&& final(db)@ == old(db)@.push(u@)
            },
            Err(e) => {
                &&& e.is_database(duplicate_key_message())
                &&& final(db)@ == old(db)@
                &&& exists|i: int| 0 <= i < old(db)@.len() && is_random_uuid(old(db)@[i].id)
            },
        },
        !request_is_blank(user_data.name@, user_data.email@) && old(db)@.len() == 0 ==> r is Ok,
{
    match prepare_new_user(user_data) {
        Err(e) => Err(e),
        Ok(row) => db.insert(row),
    }
}

/// Every user in the store, in the order of insertion.
pub fn get_all_users(db: &UserStore) -> (r: Result<Vec<User>, ServiceError>)
    ensures
        r is Ok,
        users_view(r->Ok_0@) == db@,
{
    Ok(db.rows())
}

/// The message of a lookup that matched no row.
pub open spec fn not_found_message() -> Seq<char> {
    "no rows returned by a query that expected to return at least one row"@
}

/// The user with the given identifier; a storage failure where there is none.
pub fn find_user_by_id(db: &UserStore, id: u128) -> (r: Result<User, ServiceError>)
    requires
        db.well_formed(),
    ensures
        match lookup(db@, id) {
            Some(u) => r is Ok && r->Ok_0@ == u,
            None => r is Err && r->Err_0.is_database(not_found_message()),
        },
{
    match db.find(id) {
        Some(u) => Ok(u),
        None => Err(
            ServiceError::DatabaseError(
                String::from_str("no rows returned by a query that expected to return at least one row"),
            ),
        ),
    }
}

} // verus!
