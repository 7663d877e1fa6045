//! `When` and `Then` wrappers of the mock server for each operation.
//!
//! Each wraps an `httpmock` `When` (what a request must look like) or `Then`
//! (what the server answers), and can be converted to it with `into_inner()`.
use vstd::prelude::*;
use crate::json::{JsonV, json_value};
use crate::types::{
    CreateUserRequest, Error, User, create_user_request_json, error_json, users_json,
    users_to_json_value,
};

verus! {

#[verifier::external_type_specification]
#[verifier::external_body]
pub struct ExWhen(httpmock::When);

#[verifier::external_type_specification]
#[verifier::external_body]
pub struct ExThen(httpmock::Then);

#[verifier::external_type_specification]
#[verifier::external_body]
pub struct ExRegex(regex::Regex);

/// What a mock expects of a request.
pub struct MockRequestV {
    /// The method, by name.
    pub method: Option<Seq<char>>,
    /// The patterns that the path must match.
    pub path_patterns: Seq<Seq<char>>,
    /// The JSON value that the body must hold.
    pub json_body: Option<JsonV>,
}

/// What a mock answers.
pub struct MockResponseV {
    pub status: Option<u16>,
    /// Headers, by name and value, in the order they were added.
    pub headers: Seq<(Seq<char>, Seq<char>)>,
    /// The JSON value whose text is the body.
    pub json_body: Option<JsonV>,
}

/// The request expectations that an `httpmock::When` has been given.
pub uninterp spec fn when_request(w: httpmock::When) -> MockRequestV;

/// The response that an `httpmock::Then` has been given.
pub uninterp spec fn then_response(t: httpmock::Then) -> MockResponseV;

/// The pattern that a compiled `regex::Regex` was built from.
pub uninterp spec fn regex_pattern(r: regex::Regex) -> Seq<char>;

/// Whether `regex::Regex::new` compiles a pattern.
pub uninterp spec fn regex_compiles(p: Seq<char>) -> bool;

/// HTTP methods of the operations.
#[derive(Clone, Copy, Debug, PartialEq, Eq)]
pub enum HttpMethod {
    Get,
    Post,
}

pub open spec fn method_name(m: HttpMethod) -> Seq<char> {
    match m {
        HttpMethod::Get => "GET"@,
        HttpMethod::Post => "POST"@,
    }
}

/// A short pattern (at most 100 characters) made of `^`, letters, digits, `/`,
/// `_` or `-`, and `$`: a path matched from start to end.
pub open spec fn literal_path_pattern(p: Seq<char>) -> bool {
    &&& 2 <= p.len() <= 100
    &&& p[0] == '^'
    &&& p[p.len() - 1] == '$'
    &&& forall|i: int|
        1 <= i < p.len() - 1 ==> {
            let c = #[trigger] p[i];
            ('a' <= c && c <= 'z') || ('A' <= c && c <= 'Z') || ('0' <= c && c <= '9') || c == '/'
                || c == '_' || c == '-'
        }
}

/// `regex::Regex::new`: `Some` exactly when the pattern compiles, holding that
/// pattern.  The patterns of `literal_path_pattern` hold only anchors and at
/// most 98 literal characters, which the regex syntax accepts and which stay
/// far below the compiled-size limit of the default builder (10 MiB), the one
/// other way in which `new` fails.
#[verifier::external_body]
fn regex_new(p: &str) -> (r: Option<regex::Regex>)
    ensures
        r is Some <==> regex_compiles(p@),
        r matches Some(x) ==> regex_pattern(x) == p@,
        literal_path_pattern(p@) ==> r is Some,
{
    match regex::Regex::new(p) {
        Ok(x) => Some(x),
        Err(_) => None,
    }
}

/// `httpmock::When::method`: the expected method, stored by its name.
#[verifier::external_body]
fn when_method(w: httpmock::When, m: HttpMethod) -> (r: httpmock::When)
    ensures
        when_request(r) == (MockRequestV { method: Some(method_name(m)), ..when_request(w) }),
{
    match m {
        HttpMethod::Get => w.method(httpmock::Method::GET),
        HttpMethod::Post => w.method(httpmock::Method::POST),
    }
}

/// `httpmock::When::path_matches`: one more pattern that the path must match.
#[verifier::external_body]
fn when_path_matches(w: httpmock::When, re: regex::Regex) -> (r: httpmock::When)
    ensures
        when_request(r) == (MockRequestV {
            path_patterns: when_request(w).path_patterns.push(regex_pattern(re)),
            ..when_request(w)
        }),
{
    w.path_matches(re)
}

/// `httpmock::When::json_body`: the JSON value that the body must hold.
#[verifier::external_body]
fn when_json_body(w: httpmock::When, v: serde_json::Value) -> (r: httpmock::When)
    ensures
        when_request(r) == (MockRequestV { json_body: Some(json_value(v)), ..when_request(w) }),
{
    w.json_body(v)
}

/// `httpmock::Then::status`.
#[verifier::external_body]
fn then_status(t: httpmock::Then, code: u16) -> (r: httpmock::Then)
    ensures
        then_response(r) == (MockResponseV { status: Some(code), ..then_response(t) }),
{
    t.status(code)
}

/// `httpmock::Then::header`: one more header.
#[verifier::external_body]
fn then_header(t: httpmock::Then, name: &str, value: &str) -> (r: httpmock::Then)
    ensures
        then_response(r) == (MockResponseV {
            headers: then_response(t).headers.push((name@, value@)),
            ..then_response(t)
        }),
{
    t.header(name, value)
}

/// `httpmock::Then::json_body`: the body is the text of a JSON value.
#[verifier::external_body]
fn then_json_body(t: httpmock::Then, v: serde_json::Value) -> (r: httpmock::Then)
    ensures
        then_response(r) == (MockResponseV { json_body: Some(json_value(v)), ..then_response(t) }),
{
    t.json_body(v)
}

/// The answer that each response method of the wrappers gives: the status,
/// a JSON content type added to the headers, and the JSON body.
pub open spec fn json_answer(before: MockResponseV, status: u16, body: JsonV) -> MockResponseV {
    MockResponseV {
        status: Some(status),
        headers: before.headers.push(("content-type"@, "application/json"@)),
        json_body: Some(body),
    }
}

/// What a wrapper of `When` adds for an operation: its method and its path.
pub open spec fn operation_request(before: MockRequestV, m: HttpMethod) -> MockRequestV {
    MockRequestV {
        method: Some(method_name(m)),
        path_patterns: before.path_patterns.push("^/users$"@),
        json_body: before.json_body,
    }
}

/// Answers with a status and a JSON body.
fn answer_json(t: httpmock::Then, status: u16, body: serde_json::Value) -> (r: httpmock::Then)
    ensures
        then_response(r) == json_answer(then_response(t), status, json_value(body)),
{
    let t = then_status(t, status);
    let t = then_header(t, "content-type", "application/json");
    then_json_body(t, body)
}

/// Expects a method and the path `/users`.
fn expect_users_path(w: httpmock::When, m: HttpMethod) -> (r: httpmock::When)
    ensures
        when_request(r) == operation_request(when_request(w), m),
{
    proof {
        reveal_strlit("^/users$");
    }
    let re = match regex_new("^/users$") {
        Some(re) => re,
        None => {
            proof {
                assert(literal_path_pattern("^/users$"@));
            }
            vstd::pervasive::unreached()
        },
    };
    let w = when_method(w, m);
    when_path_matches(w, re)
}

/// The request side of a `list_users` mock.
pub struct ListUsersWhen(httpmock::When);

impl ListUsersWhen {
    pub closed spec fn inner(self) -> httpmock::When {
        self.0
    }

    /// Expects `GET` on `/users`.
    pub fn new(inner: httpmock::When) -> (r: Self)
        ensures
            when_request(r.inner()) == operation_request(when_request(inner), HttpMethod::Get),
    {
        ListUsersWhen(expect_users_path(inner, HttpMethod::Get))
    }

    pub fn into_inner(self) -> (r: httpmock::When)
        ensures
            r == self.inner(),
    {
        self.0
    }
}

/// The response side of a `list_users` mock.
pub struct ListUsersThen(httpmock::Then);

impl ListUsersThen {
    pub closed spec fn inner(self) -> httpmock::Then {
        self.0
    }

    pub fn new(inner: httpmock::Then) -> (r: Self)
        ensures
            r.inner() == inner,
    {
        ListUsersThen(inner)
    }

    pub fn into_inner(self) -> (r: httpmock::Then)
        ensures
            r == self.inner(),
    {
        self.0
    }

    /// Answers 200 with the users as JSON.
    pub fn ok(self, value: &Vec<User>) -> (r: Self)
        ensures
            then_response(r.inner()) == json_answer(
                then_response(self.inner()),
                200,
                users_json(value@),
            ),
    {
        ListUsersThen(answer_json(self.0, 200, users_to_json_value(value)))
    }

    /// Answers 500 with the error as JSON.
    pub fn internal_server_error(self, value: &Error) -> (r: Self)
        ensures
            then_response(r.inner()) == json_answer(then_response(self.inner()), 500, error_json(*value)),
    {
        ListUsersThen(answer_json(self.0, 500, value.to_json_value()))
    }
}

/// The request side of a `create_user` mock.
pub struct CreateUserWhen(httpmock::When);

impl CreateUserWhen {
    pub closed spec fn inner(self) -> httpmock::When {
        self.0
    }

    /// Expects `POST` on `/users`.
    pub fn new(inner: httpmock::When) -> (r: Self)
        ensures
            when_request(r.inner()) == operation_request(when_request(inner), HttpMethod::Post),
    {
        CreateUserWhen(expect_users_path(inner, HttpMethod::Post))
    }

    pub fn into_inner(self) -> (r: httpmock::When)
        ensures
            r == self.inner(),
    {
        self.0
    }

    /// Expects the request as the JSON body.
    pub fn body(self, value: &CreateUserRequest) -> (r: Self)
        ensures
            when_request(r.inner()) == (MockRequestV {
                json_body: Some(create_user_request_json(*value)),
                ..when_request(self.inner())
            }),
    {
        CreateUserWhen(when_json_body(self.0, value.to_json_value()))
    }
}

/// The response side of a `create_user` mock.
pub struct CreateUserThen(httpmock::Then);

impl CreateUserThen {
    pub closed spec fn inner(self) -> httpmock::Then {
        self.0
    }

    pub fn new(inner: httpmock::Then) -> (r: Self)
        ensures
            r.inner() == inner,
    {
        CreateUserThen(inner)
    }

    pub fn into_inner(self) -> (r: httpmock::Then)
        ensures
            r == self.inner(),
    {
        self.0
    }

    /// Answers 201 with the user as JSON.
    pub fn created(self, value: &User) -> (r: Self)
        ensures
            then_response(r.inner()) == json_answer(
                then_response(self.inner()),
                201,
                crate::types::user_json(*value),
            ),
    {
        CreateUserThen(answer_json(self.0, 201, value.to_json_value()))
    }

    /// Answers 400 with the error as JSON.
    pub fn bad_request(self, value: &Error) -> (r: Self)
        ensures
            then_response(r.inner()) == json_answer(then_response(self.inner()), 400, error_json(*value)),
    {
        CreateUserThen(answer_json(self.0, 400, value.to_json_value()))
    }
}


/// The request that the mock of an operation expects is the one the client
/// sends: the operation's method by name (`GET` or `POST`), and a path pattern
/// that anchors, from start to end, exactly the path that `users_url` appends
/// to any base URL.  The pattern holds literal characters only, so it matches
/// that path and no other.
pub proof fn lemma_mock_expects_client_request(
    before: MockRequestV,
    m: HttpMethod,
    base: Seq<char>,
    url: Seq<char>,
)
    requires
        url == base + "/users"@,
    ensures
        operation_request(before, m).path_patterns == before.path_patterns.push(
            seq!['^'] + url.skip(base.len() as int) + seq!['$'],
        ),
        literal_path_pattern(seq!['^'] + url.skip(base.len() as int) + seq!['$']),
        m == HttpMethod::Get ==> operation_request(before, m).method == Some("GET"@),
        m == HttpMethod::Post ==> operation_request(before, m).method == Some("POST"@),
        operation_request(before, m).json_body == before.json_body,
{
    reveal_strlit("^/users$");
    reveal_strlit("/users");
    assert(url.skip(base.len() as int) =~= "/users"@);
    assert(seq!['^'] + url.skip(base.len() as int) + seq!['$'] =~= "^/users$"@);
}

/// Each answer of a mock has the status that it was given, whatever it is, a
/// JSON content type added after the headers already set, and the body given.
pub proof fn lemma_answer_has_given_status(before: MockResponseV, status: u16, body: JsonV)
    ensures
        json_answer(before, status, body).status == Some(status),
        json_answer(before, status, body).headers.len() == before.headers.len() + 1,
        json_answer(before, status, body).headers.take(before.headers.len() as int)
            == before.headers,
        json_answer(before, status, body).headers.last() == ("content-type"@, "application/json"@),
        json_answer(before, status, body).json_body == Some(body),
{
    assert(json_answer(before, status, body).headers.take(before.headers.len() as int)
        =~= before.headers);
}

} // verus!
