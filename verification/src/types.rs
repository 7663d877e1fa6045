//! Types used as operation parameters and responses of the generated client
//! for the users API, and the errors of its operations.
use vstd::prelude::*;
use crate::json::{
    JsonV, json_value, json_values, json_string, json_array, json_map_new, json_map_insert,
    json_object, parse_json, parse_json_value,
};

use crate::decimal::{status_line_spec, split_status_line};

pub mod error;

verus! {

/// `CreateUserRequest`: an object with a required string `name`.
#[derive(Clone, Debug, PartialEq)]
pub struct CreateUserRequest {
    pub name: String,
}

/// `Error`: an object with a required string `message`.
#[derive(Clone, Debug, PartialEq)]
pub struct Error {
    pub message: String,
}

/// `User`: an object with required strings `id` and `name`.
#[derive(Clone, Debug, PartialEq)]
pub struct User {
    pub id: String,
    pub name: String,
}

impl Default for CreateUserRequest {
    fn default() -> (r: Self)
        ensures
            r.name@ == Seq::<char>::empty(),
    {
        CreateUserRequest { name: String::new() }
    }
}

impl Default for Error {
    fn default() -> (r: Self)
        ensures
            r.message@ == Seq::<char>::empty(),
    {
        Error { message: String::new() }
    }
}

impl Default for User {
    fn default() -> (r: Self)
        ensures
            r.id@ == Seq::<char>::empty(),
            r.name@ == Seq::<char>::empty(),
    {
        User { id: String::new(), name: String::new() }
    }
}

impl From<&CreateUserRequest> for CreateUserRequest {
    fn from(value: &CreateUserRequest) -> (r: Self) {
        CreateUserRequest { name: value.name.clone() }
    }
}

impl vstd::std_specs::convert::FromSpecImpl<&CreateUserRequest> for CreateUserRequest {
    open spec fn obeys_from_spec() -> bool {
        true
    }

    open spec fn from_spec(v: &CreateUserRequest) -> Self {
        *v
    }
}

impl From<&Error> for Error {
    fn from(value: &Error) -> (r: Self) {
        Error { message: value.message.clone() }
    }
}

impl vstd::std_specs::convert::FromSpecImpl<&Error> for Error {
    open spec fn obeys_from_spec() -> bool {
        true
    }

    open spec fn from_spec(v: &Error) -> Self {
        *v
    }
}

impl From<&User> for User {
    fn from(value: &User) -> (r: Self) {
        User { id: value.id.clone(), name: value.name.clone() }
    }
}

impl vstd::std_specs::convert::FromSpecImpl<&User> for User {
    open spec fn obeys_from_spec() -> bool {
        true
    }

    open spec fn from_spec(v: &User) -> Self {
        *v
    }
}

/// The JSON object of a `CreateUserRequest`.
pub open spec fn create_user_request_json(v: CreateUserRequest) -> JsonV {
    JsonV::Obj(Map::empty().insert("name"@, JsonV::Str(v.name@)))
}

/// The JSON object of an `Error`.
pub open spec fn error_json(v: Error) -> JsonV {
    JsonV::Obj(Map::empty().insert("message"@, JsonV::Str(v.message@)))
}

/// The JSON object of a `User`.
pub open spec fn user_json(v: User) -> JsonV {
    JsonV::Obj(Map::empty().insert("id"@, JsonV::Str(v.id@)).insert("name"@, JsonV::Str(v.name@)))
}

/// The JSON array of a list of users.
pub open spec fn users_json(v: Seq<User>) -> JsonV {
    JsonV::Arr(v.map_values(|u: User| user_json(u)))
}

impl CreateUserRequest {
    /// The request as a JSON value: an object with its `name`.
    pub fn to_json_value(&self) -> (r: serde_json::Value)
        ensures
            json_value(r) == create_user_request_json(*self),
    {
        let mut m = json_map_new();
        json_map_insert(&mut m, "name", json_string(self.name.as_str()));
        json_object(m)
    }
}

impl Error {
    /// The error as a JSON value: an object with its `message`.
    pub fn to_json_value(&self) -> (r: serde_json::Value)
        ensures
            json_value(r) == error_json(*self),
    {
        let mut m = json_map_new();
        json_map_insert(&mut m, "message", json_string(self.message.as_str()));
        json_object(m)
    }
}

impl User {
    /// The user as a JSON value: an object with its `id` and `name`.
    pub fn to_json_value(&self) -> (r: serde_json::Value)
        ensures
            json_value(r) == user_json(*self),
    {
        let mut m = json_map_new();
        json_map_insert(&mut m, "id", json_string(self.id.as_str()));
        json_map_insert(&mut m, "name", json_string(self.name.as_str()));
        json_object(m)
    }
}

/// A list of users as a JSON array.
pub fn users_to_json_value(users: &Vec<User>) -> (r: serde_json::Value)
    ensures
        json_value(r) == users_json(users@),
{
    let mut items: Vec<serde_json::Value> = Vec::new();
    let n = users.len();
    let mut i: usize = 0;
    while i < n
        invariant
            n == users@.len(),
            i <= n,
            json_values(items@) == users@.take(i as int).map_values(|u: User| user_json(u)),
        decreases n - i,
    {
        let v = users[i].to_json_value();
        let ghost before = items@;
        items.push(v);
        assert(json_values(items@) =~= json_values(before).push(json_value(v)));
        assert(users@.take(i + 1).map_values(|u: User| user_json(u)) =~= users@.take(
            i as int,
        ).map_values(|u: User| user_json(u)).push(user_json(users@[i as int])));
        i = i + 1;
    }
    assert(users@.take(n as int) =~= users@);
    json_array(items)
}

pub open spec fn unknown_json_failure_text() -> Seq<char> {
    "Unable to parse as JSON"@
}

pub open spec fn typed_json_failure_text() -> Seq<char> {
    "Unable to parse error response as JSON"@
}

/// Error enum for the `list_users` operation
#[derive(Clone, Debug, PartialEq)]
pub enum ListUsersError {
    /// Error response for status code 500
    Status500(Error),
    /// Error response for an unknown status code
    UnknownValue(serde_json::Value),
}

/// Error enum for the `create_user` operation
#[derive(Clone, Debug, PartialEq)]
pub enum CreateUserError {
    /// Error response for status code 400
    Status400(Error),
    /// Error response for an unknown status code
    UnknownValue(serde_json::Value),
}

impl ListUsersError {
    /// The error written as a line `status:body`, as `from_str` reads it.
    ///
    /// `error_body` is the reading of the line's body as an [`Error`], `None`
    /// when it is not the JSON of one; it is used only for status 500.
    pub fn from_line(s: &str, error_body: Option<Error>) -> (r: Result<ListUsersError, String>)
        ensures
            match status_line_spec(s@) {
                Err(msg) => r matches Err(m) && m@ == msg,
                Ok((status, body)) => {
                    &&& status == 500 ==> match error_body {
                        Some(e) => r == Ok::<ListUsersError, String>(ListUsersError::Status500(e)),
                        None => r matches Err(msg) && msg@ == typed_json_failure_text(),
                    }
                    &&& status != 500 ==> match parse_json(body) {
                        Some(v) => r matches Ok(ListUsersError::UnknownValue(x)) && json_value(x) == v,
                        None => r matches Err(msg) && msg@ == unknown_json_failure_text(),
                    }
                },
            },
    {
        match split_status_line(s) {
            Ok((status, body)) => ListUsersError::from_status(status, body.as_str(), error_body),
            Err(msg) => Err(msg),
        }
    }

    /// Whether a status code is the one documented with an `Error` body (500).
    pub fn documented_status(status: u16) -> (r: bool)
        ensures
            r == (status == 500),
    {
        status == 500
    }

    /// The error for a status code and a response body.
    ///
    /// For status 500 the body is read as an [`Error`]; `error_body` is that
    /// reading, `None` when the body is not the JSON of an `Error`.  For any
    /// other status the body is kept as whatever JSON value it holds.
    pub fn from_status(status: u16, body: &str, error_body: Option<Error>) -> (r: Result<
        ListUsersError,
        String,
    >)
        ensures
            status == 500 ==> match error_body {
                Some(e) => r == Ok::<ListUsersError, String>(ListUsersError::Status500(e)),
                None => r matches Err(msg) && msg@ == typed_json_failure_text(),
            },
            status != 500 ==> match parse_json(body@) {
                Some(v) => r matches Ok(ListUsersError::UnknownValue(x)) && json_value(x) == v,
                None => r matches Err(msg) && msg@ == unknown_json_failure_text(),
            },
    {
        if status == 500 {
            match error_body {
                Some(e) => Ok(ListUsersError::Status500(e)),
                None => Err(String::from_str("Unable to parse error response as JSON")),
            }
        } else {
            match parse_json_value(body) {
                Some(v) => Ok(ListUsersError::UnknownValue(v)),
                None => Err(String::from_str("Unable to parse as JSON")),
            }
        }
    }
}

impl CreateUserError {
    /// The error written as a line `status:body`, as `from_str` reads it.
    ///
    /// `error_body` is the reading of the line's body as an [`Error`], `None`
    /// when it is not the JSON of one; it is used only for status 400.
    pub fn from_line(s: &str, error_body: Option<Error>) -> (r: Result<CreateUserError, String>)
        ensures
            match status_line_spec(s@) {
                Err(msg) => r matches Err(m) && m@ == msg,
                Ok((status, body)) => {
                    &&& status == 400 ==> match error_body {
                        Some(e) => r == Ok::<CreateUserError, String>(CreateUserError::Status400(e)),
                        None => r matches Err(msg) && msg@ == typed_json_failure_text(),
                    }
                    &&& status != 400 ==> match parse_json(body) {
                        Some(v) => r matches Ok(CreateUserError::UnknownValue(x)) && json_value(x) == v,
                        None => r matches Err(msg) && msg@ == unknown_json_failure_text(),
                    }
                },
            },
    {
        match split_status_line(s) {
            Ok((status, body)) => CreateUserError::from_status(status, body.as_str(), error_body),
            Err(msg) => Err(msg),
        }
    }

    /// Whether a status code is the one documented with an `Error` body (400).
    pub fn documented_status(status: u16) -> (r: bool)
        ensures
            r == (status == 400),
    {
        status == 400
    }

    /// The error for a status code and a response body.
    ///
    /// For status 400 the body is read as an [`Error`]; `error_body` is that
    /// reading, `None` when the body is not the JSON of an `Error`.  For any
    /// other status the body is kept as whatever JSON value it holds.
    pub fn from_status(status: u16, body: &str, error_body: Option<Error>) -> (r: Result<
        CreateUserError,
        String,
    >)
        ensures
            status == 400 ==> match error_body {
                Some(e) => r == Ok::<CreateUserError, String>(CreateUserError::Status400(e)),
                None => r matches Err(msg) && msg@ == typed_json_failure_text(),
            },
            status != 400 ==> match parse_json(body@) {
                Some(v) => r matches Ok(CreateUserError::UnknownValue(x)) && json_value(x) == v,
                None => r matches Err(msg) && msg@ == unknown_json_failure_text(),
            },
    {
        if status == 400 {
            match error_body {
                Some(e) => Ok(CreateUserError::Status400(e)),
                None => Err(String::from_str("Unable to parse error response as JSON")),
            }
        } else {
            match parse_json_value(body) {
                Some(v) => Ok(CreateUserError::UnknownValue(v)),
                None => Err(String::from_str("Unable to parse as JSON")),
            }
        }
    }
}

} // verus!
