//! Generation of unit tests that exercise a generated client against a mock
//! server.
//!
//! The operations of an API are given as [`OperationMethod`] values: their
//! identifiers, summaries, parameters and documented responses, with each type
//! already resolved to the tokens that name it.  From these the generator
//! writes, per operation, a success test for each success response, an error
//! test for each error response and a test per parameter, then one
//! integration test that runs the operations in order, as configured.  Every
//! call passes a value for each required parameter; a parameter's own test
//! passes one for it also when it is optional.
use vstd::prelude::*;
use crate::decimal::{
    decimal, lemma_decimal_injective, u16_to_decimal, lemma_digits_of_decimal, lemma_parse_decimal,
    parse_u16_spec, IntErrorKind,
};
use crate::tokens::{
    Delim, TokV, stream_tokens, stream_new, push_ident, push_str_literal, push_u16_literal,
    push_group, push_stream, push_formatted_ident, push_colon2, push_alone, push_empty_parens,
    is_formatted_ident_text, path_tokens, is_ascii_letter, xid_start, xid_continue, parsed_path, formatted_ident_ok, formatted_ident,
    ident_accepted, ident, punct, colon2, group, is_ascii_digit,
};

verus! {

/// Configuration for test generation.
#[derive(Clone, Debug)]
pub struct TestGenerationConfig {
    /// Whether to generate success case tests
    pub generate_success_tests: bool,
    /// Whether to generate error case tests
    pub generate_error_tests: bool,
    /// Whether to generate parameter validation tests
    pub generate_parameter_tests: bool,
    /// Whether to generate integration-style tests that test multiple operations
    pub generate_integration_tests: bool,
    /// Name of the generated test module
    pub test_module_name: String,
    /// Whether to include doc comments in generated tests
    pub include_documentation: bool,
}

impl Default for TestGenerationConfig {
    /// Success, error and parameter tests, no integration tests, in a module
    /// named `tests`, with documentation.
    fn default() -> (r: Self)
        ensures
            r.generate_success_tests,
            r.generate_error_tests,
            r.generate_parameter_tests,
            !r.generate_integration_tests,
            r.test_module_name@ == "tests"@,
            r.include_documentation,
    {
        TestGenerationConfig {
            generate_success_tests: true,
            generate_error_tests: true,
            generate_parameter_tests: true,
            generate_integration_tests: false,
            test_module_name: String::from_str("tests"),
            include_documentation: true,
        }
    }
}

/// Content type of a request body.
#[derive(Clone, Debug)]
pub enum BodyContentType {
    OctetStream,
    Json,
    FormUrlencoded,
    Text(String),
}

/// Where an operation parameter goes.
#[derive(Clone, Debug)]
pub enum OperationParameterKind {
    Path,
    Query(bool),
    Header(bool),
    Body(BodyContentType),
}

/// The type of an operation parameter: the tokens that name it, or a raw body.
#[derive(Debug)]
pub enum OperationParameterType {
    Type(proc_macro2::TokenStream),
    RawBody,
}

/// A parameter of an operation.
#[derive(Debug)]
pub struct OperationParameter {
    pub api_name: String,
    pub name: String,
    pub description: Option<String>,
    pub typ: OperationParameterType,
    pub kind: OperationParameterKind,
}

/// The status of a documented response: a code, a range such as `4XX`
/// (held as its first digit), or the default response.
#[derive(Clone, Copy, Debug, PartialEq, Eq)]
pub enum OperationResponseStatus {
    Code(u16),
    Range(u16),
    Default,
}

/// A response type: a vector of the type named by the tokens, or that type itself.
#[derive(Debug)]
pub enum ResponseType {
    Vec(proc_macro2::TokenStream),
    Named(proc_macro2::TokenStream),
}

/// What a response carries.
#[derive(Debug)]
pub enum OperationResponseKind {
    Type(ResponseType),
    /// No content (`None` in the operation model).
    Empty,
    Raw,
    Upgrade,
    Multiple { enum_name: String },
}

/// A documented response of an operation.
#[derive(Debug)]
pub struct OperationResponse {
    pub status_code: OperationResponseStatus,
    pub typ: OperationResponseKind,
}

/// An operation of the API.
#[derive(Debug)]
pub struct OperationMethod {
    pub operation_id: String,
    pub summary: Option<String>,
    pub params: Vec<OperationParameter>,
    pub responses: Vec<OperationResponse>,
}

/// Why tests could not be generated.
#[derive(Clone, Copy, Debug, PartialEq, Eq)]
pub enum TestGenError {
    /// A name that would have to become an identifier cannot be one.
    InvalidIdentifier,
    /// The crate path does not parse as a Rust path.
    InvalidCratePath,
}

/// The test generator.
#[derive(Clone, Debug)]
pub struct Generator {}

// ---------------------------------------------------------------------------
// Statuses
// ---------------------------------------------------------------------------

/// Success responses: the default one, codes 200 to 299 and the range `2XX`.
pub open spec fn is_success_or_default(s: OperationResponseStatus) -> bool {
    match s {
        OperationResponseStatus::Default => true,
        OperationResponseStatus::Code(c) => 200 <= c <= 299,
        OperationResponseStatus::Range(r) => r == 2,
    }
}

/// Error responses: the default one, codes 400 to 599 and the ranges `4XX`, `5XX`.
pub open spec fn is_error_or_default(s: OperationResponseStatus) -> bool {
    match s {
        OperationResponseStatus::Default => true,
        OperationResponseStatus::Code(c) => 400 <= c <= 599,
        OperationResponseStatus::Range(r) => 4 <= r <= 5,
    }
}

/// Responses that get an error test: error responses that are not success ones.
pub open spec fn gets_error_test(s: OperationResponseStatus) -> bool {
    is_error_or_default(s) && !is_success_or_default(s)
}

impl OperationResponseStatus {
    pub fn is_success_or_default(&self) -> (r: bool)
        ensures
            r == is_success_or_default(*self),
    {
        match self {
            OperationResponseStatus::Default => true,
            OperationResponseStatus::Code(c) => 200 <= *c && *c <= 299,
            OperationResponseStatus::Range(r) => *r == 2,
        }
    }

    pub fn is_error_or_default(&self) -> (r: bool)
        ensures
            r == is_error_or_default(*self),
    {
        match self {
            OperationResponseStatus::Default => true,
            OperationResponseStatus::Code(c) => 400 <= *c && *c <= 599,
            OperationResponseStatus::Range(r) => 4 <= *r && *r <= 5,
        }
    }
}

/// The suffix that a status gives a test name: the code, the range digit
/// followed by `xx`, or `default`.
pub open spec fn status_suffix(s: OperationResponseStatus) -> Seq<char> {
    match s {
        OperationResponseStatus::Code(c) => decimal(c as nat),
        OperationResponseStatus::Range(r) => decimal(r as nat) + "xx"@,
        OperationResponseStatus::Default => "default"@,
    }
}

/// How a status reads in a test's documentation.
pub open spec fn status_text(s: OperationResponseStatus) -> Seq<char> {
    status_suffix(s)
}

/// Distinct statuses give distinct test-name suffixes.
pub proof fn lemma_status_suffix_injective(a: OperationResponseStatus, b: OperationResponseStatus)
    requires
        a != b,
    ensures
        status_suffix(a) != status_suffix(b),
{
    reveal_strlit("xx");
    reveal_strlit("default");
    match (a, b) {
        (OperationResponseStatus::Code(x), OperationResponseStatus::Code(y)) => {
            lemma_decimal_injective(x, y);
        },
        (OperationResponseStatus::Range(x), OperationResponseStatus::Range(y)) => {
            lemma_decimal_injective(x, y);
            let dx = decimal(x as nat);
            let dy = decimal(y as nat);
            let t = "xx"@;
            if dx + t == dy + t {
                assert((dx + t).len() == dx.len() + t.len());
                assert((dy + t).len() == dy.len() + t.len());
                assert(dx.len() == dy.len());
                assert(dx =~= (dx + "xx"@).take(dx.len() as int));
                assert(dy =~= (dy + "xx"@).take(dy.len() as int));
            }
        },
        (OperationResponseStatus::Code(x), OperationResponseStatus::Range(y)) => {
            lemma_code_not_range(x, y);
        },
        (OperationResponseStatus::Range(y), OperationResponseStatus::Code(x)) => {
            lemma_code_not_range(x, y);
        },
        (OperationResponseStatus::Code(x), OperationResponseStatus::Default) => {
            lemma_digits_of_decimal(x as nat);
            assert(!is_ascii_digit("default"@[0]));
        },
        (OperationResponseStatus::Default, OperationResponseStatus::Code(x)) => {
            lemma_digits_of_decimal(x as nat);
            assert(!is_ascii_digit("default"@[0]));
        },
        (OperationResponseStatus::Range(y), OperationResponseStatus::Default) => {
            lemma_range_not_default(y);
        },
        (OperationResponseStatus::Default, OperationResponseStatus::Range(y)) => {
            lemma_range_not_default(y);
        },
        _ => {},
    }
}

/// The suffix of a status reads back as the status: the code of a code, the
/// digit of a range followed by `xx` (so the range `4XX` gives `4xx`), and
/// `default` for the default response.
pub proof fn lemma_status_suffix_reads_back(s: OperationResponseStatus)
    ensures
        s matches OperationResponseStatus::Code(c) ==> parse_u16_spec(status_suffix(s)) == Ok::<
            u16,
            IntErrorKind,
        >(c),
        s matches OperationResponseStatus::Range(r) ==> {
            let t = status_suffix(s);
            &&& t.len() >= 3
            &&& t[t.len() - 2] == 'x'
            &&& t[t.len() - 1] == 'x'
            &&& parse_u16_spec(t.take(t.len() - 2)) == Ok::<u16, IntErrorKind>(r)
        },
        s == OperationResponseStatus::Default ==> status_suffix(s) == "default"@,
{
    reveal_strlit("xx");
    match s {
        OperationResponseStatus::Code(c) => {
            lemma_parse_decimal(c);
        },
        OperationResponseStatus::Range(r) => {
            lemma_parse_decimal(r);
            lemma_digits_of_decimal(r as nat);
            let t = status_suffix(s);
            assert(t.take(t.len() - 2) =~= decimal(r as nat));
        },
        OperationResponseStatus::Default => {},
    }
}

proof fn lemma_code_not_range(x: u16, y: u16)
    ensures
        decimal(x as nat) != decimal(y as nat) + "xx"@,
{
    reveal_strlit("xx");
    lemma_digits_of_decimal(x as nat);
    let s = decimal(y as nat) + "xx"@;
    assert(s[s.len() - 1] == 'x');
    if decimal(x as nat) == s {
        assert(is_ascii_digit(decimal(x as nat)[s.len() - 1]));
    }
}

proof fn lemma_range_not_default(y: u16)
    ensures
        decimal(y as nat) + "xx"@ != "default"@,
{
    reveal_strlit("xx");
    reveal_strlit("default");
    let s = decimal(y as nat) + "xx"@;
    assert(s[s.len() - 1] == 'x');
}


// ---------------------------------------------------------------------------
// The generated code
// ---------------------------------------------------------------------------

/// A run of ASCII letters and underscores is an identifier.
proof fn lemma_word(s: Seq<char>)
    requires
        s.len() > 0,
        forall|i: int| 0 <= i < s.len() ==> is_ascii_letter(#[trigger] s[i]) || s[i] == '_',
    ensures
        ident_accepted(s),
{
    assert(!is_ascii_digit(s[0]));
    assert forall|i: int| 1 <= i < s.len() implies xid_continue(#[trigger] s[i]) by {
        assert(is_ascii_letter(s[i]) || s[i] == '_');
    }
    assert(s[0] == '_' || xid_start(s[0]));
}

/// The identifiers that the templates of generated tests use.
proof fn lemma_template_words()
    ensures
        ident_accepted("tokio"@),
        ident_accepted("test"@),
        ident_accepted("doc"@),
        ident_accepted("async"@),
        ident_accepted("fn"@),
        ident_accepted("let"@),
        ident_accepted("server"@),
        ident_accepted("MockServer"@),
        ident_accepted("start"@),
        ident_accepted("client"@),
        ident_accepted("Client"@),
        ident_accepted("new"@),
        ident_accepted("base_url"@),
        ident_accepted("_mock"@),
        ident_accepted("when"@),
        ident_accepted("then"@),
        ident_accepted("body"@),
        ident_accepted("ok"@),
        ident_accepted("created"@),
        ident_accepted("bad_request"@),
        ident_accepted("internal_server_error"@),
        ident_accepted("status"@),
        ident_accepted("json_body_obj"@),
        ident_accepted("result"@),
        ident_accepted("await"@),
        ident_accepted("assert"@),
        ident_accepted("is_ok"@),
        ident_accepted("is_err"@),
        ident_accepted("response"@),
        ident_accepted("unwrap"@),
        ident_accepted("default"@),
        ident_accepted("Vec"@),
        ident_accepted("serde_json"@),
        ident_accepted("json"@),
        ident_accepted("cfg"@),
        ident_accepted("pub"@),
        ident_accepted("mod"@),
        ident_accepted("use"@),
        ident_accepted("super"@),
        ident_accepted("httpmock"@),
        ident_accepted("MockServerExt"@),
        ident_accepted("operations"@),
        ident_accepted("prelude"@),
        ident_accepted("Some"@),
        ident_accepted("None"@),
{
    reveal_strlit("tokio");
    lemma_word("tokio"@);
    reveal_strlit("test");
    lemma_word("test"@);
    reveal_strlit("doc");
    lemma_word("doc"@);
    reveal_strlit("async");
    lemma_word("async"@);
    reveal_strlit("fn");
    lemma_word("fn"@);
    reveal_strlit("let");
    lemma_word("let"@);
    reveal_strlit("server");
    lemma_word("server"@);
    reveal_strlit("MockServer");
    lemma_word("MockServer"@);
    reveal_strlit("start");
    lemma_word("start"@);
    reveal_strlit("client");
    lemma_word("client"@);
    reveal_strlit("Client");
    lemma_word("Client"@);
    reveal_strlit("new");
    lemma_word("new"@);
    reveal_strlit("base_url");
    lemma_word("base_url"@);
    reveal_strlit("_mock");
    lemma_word("_mock"@);
    reveal_strlit("when");
    lemma_word("when"@);
    reveal_strlit("then");
    lemma_word("then"@);
    reveal_strlit("body");
    lemma_word("body"@);
    reveal_strlit("ok");
    lemma_word("ok"@);
    reveal_strlit("created");
    lemma_word("created"@);
    reveal_strlit("bad_request");
    lemma_word("bad_request"@);
    reveal_strlit("internal_server_error");
    lemma_word("internal_server_error"@);
    reveal_strlit("status");
    lemma_word("status"@);
    reveal_strlit("json_body_obj");
    lemma_word("json_body_obj"@);
    reveal_strlit("result");
    lemma_word("result"@);
    reveal_strlit("await");
    lemma_word("await"@);
    reveal_strlit("assert");
    lemma_word("assert"@);
    reveal_strlit("is_ok");
    lemma_word("is_ok"@);
    reveal_strlit("is_err");
    lemma_word("is_err"@);
    reveal_strlit("response");
    lemma_word("response"@);
    reveal_strlit("unwrap");
    lemma_word("unwrap"@);
    reveal_strlit("default");
    lemma_word("default"@);
    reveal_strlit("Vec");
    lemma_word("Vec"@);
    reveal_strlit("serde_json");
    lemma_word("serde_json"@);
    reveal_strlit("json");
    lemma_word("json"@);
    reveal_strlit("cfg");
    lemma_word("cfg"@);
    reveal_strlit("pub");
    lemma_word("pub"@);
    reveal_strlit("mod");
    lemma_word("mod"@);
    reveal_strlit("use");
    lemma_word("use"@);
    reveal_strlit("super");
    lemma_word("super"@);
    reveal_strlit("httpmock");
    lemma_word("httpmock"@);
    reveal_strlit("MockServerExt");
    lemma_word("MockServerExt"@);
    reveal_strlit("operations");
    lemma_word("operations"@);
    reveal_strlit("prelude");
    lemma_word("prelude"@);
    reveal_strlit("Some");
    lemma_word("Some"@);
    reveal_strlit("None");
    lemma_word("None"@);
}

/// `()`.
pub open spec fn empty_parens() -> Seq<TokV> {
    group(Delim::Paren, Seq::empty())
}

/// `::default()`.
pub open spec fn default_call() -> Seq<TokV> {
    colon2() + seq![ident("default"@)] + empty_parens()
}

/// `"key": "value"`.
pub open spec fn json_pair(k: Seq<char>, v: Seq<char>) -> Seq<TokV> {
    seq![TokV::Str(k), punct(':'), TokV::Str(v)]
}

/// `serde_json::json!({ inner })`.
pub open spec fn json_macro(inner: Seq<TokV>) -> Seq<TokV> {
    seq![ident("serde_json"@)] + colon2() + seq![ident("json"@), punct('!')] + group(
        Delim::Paren,
        group(Delim::Brace, inner),
    )
}

/// The sample value passed for a parameter.
pub open spec fn sample_value(p: OperationParameter) -> Seq<TokV> {
    match p.typ {
        OperationParameterType::Type(t) => stream_tokens(t) + default_call(),
        OperationParameterType::RawBody => match p.kind {
            OperationParameterKind::Body(BodyContentType::Json) => json_macro(
                json_pair("test"@, "data"@),
            ),
            OperationParameterKind::Body(BodyContentType::Text(_)) => seq![
                TokV::Str("test body content"@),
            ],
            _ => seq![TokV::Str("test data"@)],
        },
    }
}

/// The sample value that the mock server answers with.
pub open spec fn sample_response(k: OperationResponseKind) -> Seq<TokV> {
    match k {
        OperationResponseKind::Type(ResponseType::Vec(inner)) => seq![ident("Vec"@)] + colon2()
            + seq![punct('<')] + stream_tokens(inner) + seq![punct('>')] + default_call(),
        OperationResponseKind::Type(ResponseType::Named(t)) => stream_tokens(t) + default_call(),
        OperationResponseKind::Empty => empty_parens(),
        OperationResponseKind::Raw => json_macro(json_pair("message"@, "success"@)),
        OperationResponseKind::Upgrade => empty_parens(),
        OperationResponseKind::Multiple { enum_name } => seq![formatted_ident(enum_name@)]
            + default_call(),
    }
}

/// The name of the mock-response method for a status, `None` for a code of
/// 400 or more that has no method of its own.
pub open spec fn then_method(s: OperationResponseStatus) -> Option<Seq<char>> {
    match s {
        OperationResponseStatus::Code(c) => if c == 200 {
            Some("ok"@)
        } else if c == 201 {
            Some("created"@)
        } else if c == 400 {
            Some("bad_request"@)
        } else if c == 500 {
            Some("internal_server_error"@)
        } else if c >= 400 {
            None
        } else {
            Some("ok"@)
        },
        OperationResponseStatus::Range(r) => if r == 4 {
            Some("bad_request"@)
        } else if r == 5 {
            Some("internal_server_error"@)
        } else {
            Some("ok"@)
        },
        OperationResponseStatus::Default => Some("ok"@),
    }
}

/// `(& sample)`.
pub open spec fn ref_arg(sample: Seq<TokV>) -> Seq<TokV> {
    group(Delim::Paren, seq![punct('&')] + sample)
}

/// The configuration of the mock response: `then.ok(&sample);` and the like, or
/// `then.status(code).json_body_obj(&sample);`.
pub open spec fn mock_response(r: OperationResponse) -> Seq<TokV> {
    let sample = sample_response(r.typ);
    match then_method(r.status_code) {
        Some(name) => seq![ident("then"@), punct('.'), ident(name)] + ref_arg(sample) + seq![
            punct(';'),
        ],
        None => seq![ident("then"@), punct('.'), ident("status"@)] + group(
            Delim::Paren,
            seq![TokV::U16(status_code_of(r.status_code))],
        ) + seq![punct('.'), ident("json_body_obj"@)] + ref_arg(sample) + seq![punct(';')],
    }
}

pub open spec fn status_code_of(s: OperationResponseStatus) -> u16 {
    match s {
        OperationResponseStatus::Code(c) => c,
        _ => 0,
    }
}

pub open spec fn is_body_param(p: OperationParameter) -> bool {
    p.kind is Body
}

/// The first body parameter among `params[i..]`.
pub open spec fn first_body_from(params: Seq<OperationParameter>, i: int) -> Option<
    OperationParameter,
>
    decreases params.len() - i,
{
    if i < 0 || i >= params.len() {
        None
    } else if is_body_param(params[i]) {
        Some(params[i])
    } else {
        first_body_from(params, i + 1)
    }
}

/// The first body parameter of an operation.
pub open spec fn first_body_param(m: OperationMethod) -> Option<OperationParameter> {
    first_body_from(m.params@, 0)
}

/// The request that the mock expects: `when.body(&sample);` or `when;`.
pub open spec fn when_conditions(m: OperationMethod) -> Seq<TokV> {
    match first_body_param(m) {
        Some(p) => seq![ident("when"@), punct('.'), ident("body"@)] + ref_arg(sample_value(p))
            + seq![punct(';')],
        None => seq![ident("when"@), punct(';')],
    }
}

/// `let _mock = server.op(|when, then| { .. });`.
pub open spec fn mock_setup(m: OperationMethod, r: OperationResponse) -> Seq<TokV> {
    seq![
        ident("let"@),
        ident("_mock"@),
        punct('='),
        ident("server"@),
        punct('.'),
        formatted_ident(m.operation_id@),
    ] + group(
        Delim::Paren,
        seq![punct('|'), ident("when"@), punct(','), ident("then"@), punct('|')] + group(
            Delim::Brace,
            when_conditions(m) + mock_response(r),
        ),
    ) + seq![punct(';')]
}

/// Whether a call must pass a parameter: path parameters and bodies always,
/// query and header parameters when they are required.
pub open spec fn is_required_param(p: OperationParameter) -> bool {
    match p.kind {
        OperationParameterKind::Path => true,
        OperationParameterKind::Query(required) => required,
        OperationParameterKind::Header(required) => required,
        OperationParameterKind::Body(_) => true,
    }
}

/// The argument passed for a parameter: `&sample` when it is required; when
/// it is optional, `Some(&sample)` for the parameter under test and `None`
/// for the others.
pub open spec fn call_arg(p: OperationParameter, focused: bool) -> Seq<TokV> {
    if is_required_param(p) {
        seq![punct('&')] + sample_value(p)
    } else if focused {
        seq![ident("Some"@)] + ref_arg(sample_value(p))
    } else {
        seq![ident("None"@)]
    }
}

/// The arguments for the first `i` parameters, separated by commas; `focus`
/// is the index of the parameter under test (none when out of range).
pub open spec fn call_args_upto(m: OperationMethod, focus: int, i: int) -> Seq<TokV>
    decreases i,
{
    if i <= 0 || i > m.params@.len() {
        Seq::empty()
    } else {
        call_args_upto(m, focus, i - 1) + (if i > 1 {
            seq![punct(',')]
        } else {
            Seq::empty()
        }) + call_arg(m.params@[i - 1], i - 1 == focus)
    }
}

/// The index of the parameter under test, `-1` for none.
pub open spec fn focus_index(focus: Option<usize>) -> int {
    match focus {
        Some(i) => i as int,
        None => -1,
    }
}

/// `let result = client.op(args).await;`, with an argument for every parameter.
pub open spec fn operation_call(m: OperationMethod, focus: int) -> Seq<TokV> {
    seq![
        ident("let"@),
        ident("result"@),
        punct('='),
        ident("client"@),
        punct('.'),
        formatted_ident(m.operation_id@),
    ] + group(Delim::Paren, call_args_upto(m, focus, m.params@.len() as int)) + seq![
        punct('.'),
        ident("await"@),
        punct(';'),
    ]
}

/// `assert!(result.is_ok()); let response = result.unwrap();`.
pub open spec fn success_assertions() -> Seq<TokV> {
    seq![ident("assert"@), punct('!')] + group(
        Delim::Paren,
        seq![ident("result"@), punct('.'), ident("is_ok"@)] + empty_parens(),
    ) + seq![punct(';'), ident("let"@), ident("response"@), punct('='), ident("result"@), punct('.'), ident("unwrap"@)]
        + empty_parens() + seq![punct(';')]
}

/// `assert!(result.is_ok());`.
pub open spec fn ok_assertion() -> Seq<TokV> {
    seq![ident("assert"@), punct('!')] + group(
        Delim::Paren,
        seq![ident("result"@), punct('.'), ident("is_ok"@)] + empty_parens(),
    ) + seq![punct(';')]
}

/// `assert!(result.is_err());`.
pub open spec fn error_assertions() -> Seq<TokV> {
    seq![ident("assert"@), punct('!')] + group(
        Delim::Paren,
        seq![ident("result"@), punct('.'), ident("is_err"@)] + empty_parens(),
    ) + seq![punct(';')]
}

/// `let server = MockServer::start(); let client = Client::new(&server.base_url());`.
pub open spec fn test_prelude() -> Seq<TokV> {
    seq![ident("let"@), ident("server"@), punct('='), ident("MockServer"@)] + colon2() + seq![
        ident("start"@),
    ] + empty_parens() + seq![punct(';'), ident("let"@), ident("client"@), punct('='), ident("Client"@)]
        + colon2() + seq![ident("new"@)] + group(
        Delim::Paren,
        seq![punct('&'), ident("server"@), punct('.'), ident("base_url"@)] + empty_parens(),
    ) + seq![punct(';')]
}

/// `#[doc = "..."]`, when tests are documented.
pub open spec fn doc_attr(doc: Seq<char>, documented: bool) -> Seq<TokV> {
    if documented {
        seq![punct('#')] + group(Delim::Bracket, seq![ident("doc"@), punct('='), TokV::Str(doc)])
    } else {
        Seq::empty()
    }
}

/// An asynchronous test function with a name, documentation (when asked for)
/// and body.
pub open spec fn test_fn(name: Seq<char>, doc: Seq<char>, documented: bool, body: Seq<TokV>) -> Seq<
    TokV,
> {
    seq![punct('#')] + group(Delim::Bracket, seq![ident("tokio"@)] + colon2() + seq![ident("test"@)])
        + doc_attr(doc, documented) + seq![ident("async"@), ident("fn"@), formatted_ident(name)]
        + empty_parens() + group(Delim::Brace, test_prelude() + body)
}

pub open spec fn summary_text(m: OperationMethod) -> Seq<char> {
    match m.summary {
        Some(s) => s@,
        None => "operation"@,
    }
}

pub open spec fn success_test_name(m: OperationMethod, r: OperationResponse) -> Seq<char> {
    "test_"@ + m.operation_id@ + "_success_"@ + status_suffix(r.status_code)
}

pub open spec fn error_test_name(m: OperationMethod, r: OperationResponse) -> Seq<char> {
    "test_"@ + m.operation_id@ + "_error_"@ + status_suffix(r.status_code)
}

pub open spec fn param_test_name(m: OperationMethod, p: OperationParameter) -> Seq<char> {
    "test_"@ + m.operation_id@ + "_param_"@ + p.name@
}

pub open spec fn success_doc(m: OperationMethod, r: OperationResponse) -> Seq<char> {
    "Test successful "@ + summary_text(m) + " with "@ + status_text(r.status_code) + " response"@
}

pub open spec fn error_doc(m: OperationMethod, r: OperationResponse) -> Seq<char> {
    "Test error case for "@ + summary_text(m) + " with "@ + status_text(r.status_code)
        + " response"@
}

pub open spec fn param_doc(m: OperationMethod, p: OperationParameter) -> Seq<char> {
    "Test "@ + m.operation_id@ + " with parameter "@ + p.name@
}

/// The first success response among `rs[i..]`.
pub open spec fn first_success_from(rs: Seq<OperationResponse>, i: int) -> Option<
    OperationResponse,
>
    decreases rs.len() - i,
{
    if i < 0 || i >= rs.len() {
        None
    } else if is_success_or_default(rs[i].status_code) {
        Some(rs[i])
    } else {
        first_success_from(rs, i + 1)
    }
}

/// The first success response of an operation.
pub open spec fn first_success(m: OperationMethod) -> Option<OperationResponse> {
    first_success_from(m.responses@, 0)
}

/// The success test of an operation for one of its responses.
pub open spec fn success_test(m: OperationMethod, r: OperationResponse, documented: bool) -> Seq<
    TokV,
> {
    test_fn(
        success_test_name(m, r),
        success_doc(m, r),
        documented,
        mock_setup(m, r) + operation_call(m, -1) + success_assertions(),
    )
}

/// The error test of an operation for one of its responses.
pub open spec fn error_test(m: OperationMethod, r: OperationResponse, documented: bool) -> Seq<
    TokV,
> {
    test_fn(
        error_test_name(m, r),
        error_doc(m, r),
        documented,
        mock_setup(m, r) + operation_call(m, -1) + error_assertions(),
    )
}

/// What the test of the `i`-th parameter does: with the operation's first
/// success response mocked, call it with a value for the parameter (also when
/// it is optional) and expect success; with no success response documented,
/// call it against a server that mocks nothing and expect an error.
pub open spec fn param_test_body(m: OperationMethod, i: int) -> Seq<TokV> {
    match first_success(m) {
        Some(r) => mock_setup(m, r) + operation_call(m, i) + ok_assertion(),
        None => operation_call(m, i) + error_assertions(),
    }
}

/// The test of an operation for its `i`-th parameter.
pub open spec fn param_test(m: OperationMethod, i: int, documented: bool) -> Seq<TokV> {
    test_fn(
        param_test_name(m, m.params@[i]),
        param_doc(m, m.params@[i]),
        documented,
        param_test_body(m, i),
    )
}

/// The success tests for the first `i` responses of an operation.
pub open spec fn success_tests_upto(m: OperationMethod, i: int, d: bool) -> Seq<Seq<TokV>>
    decreases i,
{
    if i <= 0 || i > m.responses@.len() {
        Seq::empty()
    } else {
        let r = m.responses@[i - 1];
        success_tests_upto(m, i - 1, d) + if is_success_or_default(r.status_code) {
            seq![success_test(m, r, d)]
        } else {
            Seq::empty()
        }
    }
}

/// The error tests for the first `i` responses of an operation.
pub open spec fn error_tests_upto(m: OperationMethod, i: int, d: bool) -> Seq<Seq<TokV>>
    decreases i,
{
    if i <= 0 || i > m.responses@.len() {
        Seq::empty()
    } else {
        let r = m.responses@[i - 1];
        error_tests_upto(m, i - 1, d) + if gets_error_test(r.status_code) {
            seq![error_test(m, r, d)]
        } else {
            Seq::empty()
        }
    }
}

/// The parameter tests for the first `i` parameters of an operation.
pub open spec fn param_tests_upto(m: OperationMethod, i: int, d: bool) -> Seq<Seq<TokV>>
    decreases i,
{
    if i <= 0 || i > m.params@.len() {
        Seq::empty()
    } else {
        param_tests_upto(m, i - 1, d) + seq![param_test(m, i - 1, d)]
    }
}

pub open spec fn success_tests(m: OperationMethod, d: bool) -> Seq<Seq<TokV>> {
    success_tests_upto(m, m.responses@.len() as int, d)
}

pub open spec fn error_tests(m: OperationMethod, d: bool) -> Seq<Seq<TokV>> {
    error_tests_upto(m, m.responses@.len() as int, d)
}

pub open spec fn param_tests(m: OperationMethod, d: bool) -> Seq<Seq<TokV>> {
    param_tests_upto(m, m.params@.len() as int, d)
}

/// The tests of one operation: its success tests, then its error tests, then
/// its parameter tests, each kind only where the configuration asks for it.
pub open spec fn method_tests(m: OperationMethod, c: TestGenerationConfig) -> Seq<Seq<TokV>> {
    (if c.generate_success_tests {
        success_tests(m, c.include_documentation)
    } else {
        Seq::empty()
    }) + (if c.generate_error_tests {
        error_tests(m, c.include_documentation)
    } else {
        Seq::empty()
    }) + (if c.generate_parameter_tests {
        param_tests(m, c.include_documentation)
    } else {
        Seq::empty()
    })
}

/// The tests of the first `i` operations.
pub open spec fn all_tests_upto(ms: Seq<OperationMethod>, c: TestGenerationConfig, i: int) -> Seq<
    Seq<TokV>,
>
    decreases i,
{
    if i <= 0 || i > ms.len() {
        Seq::empty()
    } else {
        all_tests_upto(ms, c, i - 1) + method_tests(ms[i - 1], c)
    }
}

/// One step of a workflow: the operation's first success response mocked, the
/// operation called, and its success checked.
pub open spec fn workflow_step(m: OperationMethod) -> Seq<TokV> {
    mock_setup(m, first_success(m)->0) + operation_call(m, -1) + ok_assertion()
}

/// The steps of the workflow through the first `i` operations: every
/// operation that documents a success response, in order.
pub open spec fn workflow_upto(ms: Seq<OperationMethod>, i: int) -> Seq<TokV>
    decreases i,
{
    if i <= 0 || i > ms.len() {
        Seq::empty()
    } else {
        workflow_upto(ms, i - 1) + if first_success(ms[i - 1]) is Some {
            workflow_step(ms[i - 1])
        } else {
            Seq::empty()
        }
    }
}

/// How many of the first `i` operations document a success response.
pub open spec fn workflow_len_upto(ms: Seq<OperationMethod>, i: int) -> nat
    decreases i,
{
    if i <= 0 || i > ms.len() {
        0
    } else {
        workflow_len_upto(ms, i - 1) + if first_success(ms[i - 1]) is Some {
            1nat
        } else {
            0nat
        }
    }
}

pub open spec fn integration_test_name() -> Seq<char> {
    "test_integration_workflow"@
}

pub open spec fn integration_doc() -> Seq<char> {
    "Test a workflow that combines the operations in order"@
}

/// The integration tests: one test that runs the workflow through every
/// operation with a success response, when there are at least two of them.
pub open spec fn integration_tests(ms: Seq<OperationMethod>, d: bool) -> Seq<Seq<TokV>> {
    if workflow_len_upto(ms, ms.len() as int) >= 2 {
        seq![
            test_fn(
                integration_test_name(),
                integration_doc(),
                d,
                workflow_upto(ms, ms.len() as int),
            ),
        ]
    } else {
        Seq::empty()
    }
}

/// The tests of all operations, in order, then the integration tests when
/// the configuration asks for them.
pub open spec fn all_tests(ms: Seq<OperationMethod>, c: TestGenerationConfig) -> Seq<Seq<TokV>> {
    all_tests_upto(ms, c, ms.len() as int) + if c.generate_integration_tests {
        integration_tests(ms, c.include_documentation)
    } else {
        Seq::empty()
    }
}

/// The tokens of a list of token sequences, one after the other.
pub open spec fn flatten(ss: Seq<Seq<TokV>>) -> Seq<TokV>
    decreases ss.len(),
{
    if ss.len() == 0 {
        Seq::empty()
    } else {
        flatten(ss.drop_last()) + ss.last()
    }
}

/// The tokens of each of a list of streams.
pub open spec fn streams_tokens(v: Seq<proc_macro2::TokenStream>) -> Seq<Seq<TokV>> {
    v.map_values(|t: proc_macro2::TokenStream| stream_tokens(t))
}

/// The generated test module around the test functions.
pub open spec fn module_tokens(name: Seq<char>, crate_path: Seq<TokV>, tests: Seq<TokV>) -> Seq<
    TokV,
> {
    seq![punct('#')] + group(
        Delim::Bracket,
        seq![ident("cfg"@)] + group(Delim::Paren, seq![ident("test"@)]),
    ) + seq![ident("pub"@), ident("mod"@), formatted_ident(name)] + group(
        Delim::Brace,
        seq![ident("use"@), ident("super"@)] + colon2() + seq![punct('*'), punct(';'), ident("use"@)]
            + crate_path + colon2() + seq![ident("httpmock"@)] + colon2() + group(
            Delim::Brace,
            seq![ident("MockServerExt"@), punct(','), ident("operations"@)],
        ) + seq![punct(';'), ident("use"@)] + colon2() + seq![ident("httpmock"@)] + colon2() + seq![
            ident("prelude"@),
        ] + colon2() + seq![punct('*'), punct(';'), ident("use"@), ident("tokio"@), punct(';')]
            + tests,
    )
}

/// Every identifier that a sample response needs can be formed.
pub open spec fn sample_response_ok(k: OperationResponseKind) -> bool {
    k matches OperationResponseKind::Multiple { enum_name } ==> formatted_ident_ok(enum_name@)
}

pub open spec fn success_test_ok(m: OperationMethod, r: OperationResponse) -> bool {
    &&& formatted_ident_ok(success_test_name(m, r))
    &&& formatted_ident_ok(m.operation_id@)
    &&& sample_response_ok(r.typ)
}

pub open spec fn error_test_ok(m: OperationMethod, r: OperationResponse) -> bool {
    &&& formatted_ident_ok(error_test_name(m, r))
    &&& formatted_ident_ok(m.operation_id@)
    &&& sample_response_ok(r.typ)
}

/// Every identifier that the test of the `i`-th parameter needs can be formed.
pub open spec fn param_test_ok(m: OperationMethod, i: int) -> bool {
    &&& formatted_ident_ok(param_test_name(m, m.params@[i]))
    &&& formatted_ident_ok(m.operation_id@)
    &&& first_success(m) matches Some(r) ==> sample_response_ok(r.typ)
}

pub open spec fn success_tests_ok(m: OperationMethod) -> bool {
    forall|i: int|
        0 <= i < m.responses@.len() && is_success_or_default(m.responses@[i].status_code)
            ==> success_test_ok(m, #[trigger] m.responses@[i])
}

pub open spec fn error_tests_ok(m: OperationMethod) -> bool {
    forall|i: int|
        0 <= i < m.responses@.len() && gets_error_test(m.responses@[i].status_code) ==> error_test_ok(
            m,
            #[trigger] m.responses@[i],
        )
}

pub open spec fn param_tests_ok(m: OperationMethod) -> bool {
    forall|i: int| 0 <= i < m.params@.len() ==> #[trigger] param_test_ok(m, i)
}

/// Every identifier that the configured tests of an operation need can be formed.
pub open spec fn method_tests_ok(m: OperationMethod, c: TestGenerationConfig) -> bool {
    &&& c.generate_success_tests ==> success_tests_ok(m)
    &&& c.generate_error_tests ==> error_tests_ok(m)
    &&& c.generate_parameter_tests ==> param_tests_ok(m)
}

/// Every identifier that the step of an operation in the workflow needs can be formed.
pub open spec fn workflow_step_ok(m: OperationMethod) -> bool {
    first_success(m) matches Some(r) ==> formatted_ident_ok(m.operation_id@) && sample_response_ok(
        r.typ,
    )
}

/// Every identifier that the integration tests need can be formed.
pub open spec fn integration_ok(ms: Seq<OperationMethod>) -> bool {
    workflow_len_upto(ms, ms.len() as int) >= 2 ==> forall|i: int|
        0 <= i < ms.len() ==> workflow_step_ok(#[trigger] ms[i])
}

/// Every identifier that the configured tests need can be formed.
pub open spec fn tests_ok(ms: Seq<OperationMethod>, c: TestGenerationConfig) -> bool {
    &&& forall|i: int| 0 <= i < ms.len() ==> method_tests_ok(#[trigger] ms[i], c)
    &&& c.generate_integration_tests ==> integration_ok(ms)
}

/// Everything that generation needs: the identifiers of the tests and of the
/// module, and a crate path that parses.
pub open spec fn generation_ok(
    ms: Seq<OperationMethod>,
    crate_path: Seq<char>,
    c: TestGenerationConfig,
) -> bool {
    &&& tests_ok(ms, c)
    &&& formatted_ident_ok(c.test_module_name@)
    &&& parsed_path(crate_path) is Some
}

/// The generated test module.
pub open spec fn generated_module(
    ms: Seq<OperationMethod>,
    crate_path: Seq<char>,
    c: TestGenerationConfig,
) -> Seq<TokV> {
    module_tokens(c.test_module_name@, parsed_path(crate_path)->0, flatten(all_tests(ms, c)))
}

// ---------------------------------------------------------------------------
// Writing the generated code
// ---------------------------------------------------------------------------

/// Appends `::default()`.
fn emit_default_call(ts: &mut proc_macro2::TokenStream)
    ensures
        stream_tokens(*final(ts)) == stream_tokens(*old(ts)) + default_call(),
{
    proof {
        lemma_template_words();
    }
    push_colon2(ts);
    push_ident(ts, "default");
    push_empty_parens(ts);
    assert(stream_tokens(*ts) =~= stream_tokens(*old(ts)) + default_call());
}

/// Appends `serde_json::json!({ "key": "value" })`.
fn emit_json_macro(ts: &mut proc_macro2::TokenStream, key: &str, value: &str)
    ensures
        stream_tokens(*final(ts)) == stream_tokens(*old(ts)) + json_macro(json_pair(key@, value@)),
{
    proof {
        lemma_template_words();
    }
    let mut pair = stream_new();
    push_str_literal(&mut pair, key);
    push_alone(&mut pair, ':');
    push_str_literal(&mut pair, value);
    assert(stream_tokens(pair) =~= json_pair(key@, value@));
    let mut brace = stream_new();
    push_group(&mut brace, Delim::Brace, pair);
    push_ident(ts, "serde_json");
    push_colon2(ts);
    push_ident(ts, "json");
    push_alone(ts, '!');
    push_group(ts, Delim::Paren, brace);
    assert(stream_tokens(*ts) =~= stream_tokens(*old(ts)) + json_macro(json_pair(key@, value@)));
}

/// Appends `(& sample)`.
fn emit_ref_arg(ts: &mut proc_macro2::TokenStream, sample: &proc_macro2::TokenStream)
    ensures
        stream_tokens(*final(ts)) == stream_tokens(*old(ts)) + ref_arg(stream_tokens(*sample)),
{
    let mut inner = stream_new();
    push_alone(&mut inner, '&');
    push_stream(&mut inner, sample);
    assert(stream_tokens(inner) =~= seq![punct('&')] + stream_tokens(*sample));
    push_group(ts, Delim::Paren, inner);
}

/// The first body parameter of an operation.
fn find_body_param(method: &OperationMethod) -> (r: Option<&OperationParameter>)
    ensures
        r matches Some(p) ==> first_body_param(*method) == Some(*p),
        r is None ==> first_body_param(*method) is None,
{
    let n = method.params.len();
    let mut i: usize = 0;
    while i < n
        invariant
            n == method.params@.len(),
            i <= n,
            first_body_param(*method) == first_body_from(method.params@, i as int),
        decreases n - i,
    {
        let p = &method.params[i];
        if let OperationParameterKind::Body(_) = &p.kind {
            return Some(p);
        }
        i = i + 1;
    }
    None
}

/// Builds `first + second + third + fourth` as a string.
fn concat4(a: &str, b: &str, c: &str, d: &str) -> (r: String)
    ensures
        r@ == a@ + b@ + c@ + d@,
{
    let mut s = String::from_str(a);
    s.append(b);
    s.append(c);
    s.append(d);
    s
}

/// The summary of an operation, or `operation` when it has none.
fn summary_str(method: &OperationMethod) -> (r: &str)
    ensures
        r@ == summary_text(*method),
{
    match &method.summary {
        Some(s) => s.as_str(),
        None => "operation",
    }
}

/// Whether a call must pass a value for the parameter.
fn is_required(param: &OperationParameter) -> (r: bool)
    ensures
        r == is_required_param(*param),
{
    match &param.kind {
        OperationParameterKind::Path => true,
        OperationParameterKind::Query(required) => *required,
        OperationParameterKind::Header(required) => *required,
        OperationParameterKind::Body(_) => true,
    }
}

/// The first success response of an operation.
fn find_first_success(method: &OperationMethod) -> (r: Option<&OperationResponse>)
    ensures
        r matches Some(x) ==> first_success(*method) == Some(*x),
        r is None ==> first_success(*method) is None,
{
    let n = method.responses.len();
    let mut i: usize = 0;
    while i < n
        invariant
            n == method.responses@.len(),
            i <= n,
            first_success(*method) == first_success_from(method.responses@, i as int),
        decreases n - i,
    {
        let response = &method.responses[i];
        if response.status_code.is_success_or_default() {
            return Some(response);
        }
        i = i + 1;
    }
    None
}

/// Appends an asynchronous test function.
fn emit_test_fn(
    ts: &mut proc_macro2::TokenStream,
    name: &str,
    doc: &str,
    documented: bool,
    body: &proc_macro2::TokenStream,
)
    requires
        formatted_ident_ok(name@),
    ensures
        stream_tokens(*final(ts)) == stream_tokens(*old(ts)) + test_fn(
            name@,
            doc@,
            documented,
            stream_tokens(*body),
        ),
{
    proof {
        lemma_template_words();
    }
    let mut attr = stream_new();
    push_ident(&mut attr, "tokio");
    push_colon2(&mut attr);
    push_ident(&mut attr, "test");
    let mut doc_attr = stream_new();
    push_ident(&mut doc_attr, "doc");
    push_alone(&mut doc_attr, '=');
    push_str_literal(&mut doc_attr, doc);
    let mut base = stream_new();
    push_alone(&mut base, '&');
    push_ident(&mut base, "server");
    push_alone(&mut base, '.');
    push_ident(&mut base, "base_url");
    push_empty_parens(&mut base);
    let mut block = stream_new();
    push_ident(&mut block, "let");
    push_ident(&mut block, "server");
    push_alone(&mut block, '=');
    push_ident(&mut block, "MockServer");
    push_colon2(&mut block);
    push_ident(&mut block, "start");
    push_empty_parens(&mut block);
    push_alone(&mut block, ';');
    push_ident(&mut block, "let");
    push_ident(&mut block, "client");
    push_alone(&mut block, '=');
    push_ident(&mut block, "Client");
    push_colon2(&mut block);
    push_ident(&mut block, "new");
    push_group(&mut block, Delim::Paren, base);
    push_alone(&mut block, ';');
    assert(stream_tokens(block) =~= test_prelude());
    push_stream(&mut block, body);
    push_alone(ts, '#');
    push_group(ts, Delim::Bracket, attr);
    if documented {
        push_alone(ts, '#');
        push_group(ts, Delim::Bracket, doc_attr);
    }
    push_ident(ts, "async");
    push_ident(ts, "fn");
    push_formatted_ident(ts, name);
    push_empty_parens(ts);
    push_group(ts, Delim::Brace, block);
    assert(stream_tokens(*ts) =~= stream_tokens(*old(ts)) + test_fn(
        name@,
        doc@,
        documented,
        stream_tokens(*body),
    ));
}

impl Default for Generator {
    fn default() -> (r: Self) {
        Generator {  }
    }
}

impl Generator {
    pub fn new() -> (r: Self) {
        Generator {  }
    }

    /// Generate a suffix for response status in test names
    pub fn response_status_suffix_internal(&self, status: &OperationResponseStatus) -> (r: String)
        ensures
            r@ == status_suffix(*status),
    {
        match status {
            OperationResponseStatus::Code(code) => u16_to_decimal(*code),
            OperationResponseStatus::Range(range) => {
                let mut s = u16_to_decimal(*range);
                s.append("xx");
                s
            },
            OperationResponseStatus::Default => String::from_str("default"),
        }
    }

    /// Generate sample parameter values for testing
    pub fn generate_sample_value_internal(&self, param: &OperationParameter) -> (r:
        proc_macro2::TokenStream)
        ensures
            stream_tokens(r) == sample_value(*param),
    {
        let mut ts = stream_new();
        match &param.typ {
            OperationParameterType::Type(type_ident) => {
                push_stream(&mut ts, type_ident);
                emit_default_call(&mut ts);
            },
            OperationParameterType::RawBody => match &param.kind {
                OperationParameterKind::Body(BodyContentType::Json) => {
                    emit_json_macro(&mut ts, "test", "data");
                },
                OperationParameterKind::Body(BodyContentType::Text(_)) => {
                    push_str_literal(&mut ts, "test body content");
                },
                _ => {
                    push_str_literal(&mut ts, "test data");
                },
            },
        }
        assert(stream_tokens(ts) =~= sample_value(*param));
        ts
    }

    /// Generate sample response values for mocking
    fn generate_sample_response_value_internal(&self, response_kind: &OperationResponseKind) -> (r:
        proc_macro2::TokenStream)
        requires
            sample_response_ok(*response_kind),
        ensures
            stream_tokens(r) == sample_response(*response_kind),
    {
        proof {
            lemma_template_words();
        }
        let mut ts = stream_new();
        match response_kind {
            OperationResponseKind::Type(ResponseType::Vec(inner)) => {
                push_ident(&mut ts, "Vec");
                push_colon2(&mut ts);
                push_alone(&mut ts, '<');
                push_stream(&mut ts, inner);
                push_alone(&mut ts, '>');
                emit_default_call(&mut ts);
            },
            OperationResponseKind::Type(ResponseType::Named(type_ident)) => {
                push_stream(&mut ts, type_ident);
                emit_default_call(&mut ts);
            },
            OperationResponseKind::Empty => {
                push_empty_parens(&mut ts);
            },
            OperationResponseKind::Raw => {
                emit_json_macro(&mut ts, "message", "success");
            },
            OperationResponseKind::Upgrade => {
                push_empty_parens(&mut ts);
            },
            OperationResponseKind::Multiple { enum_name } => {
                push_formatted_ident(&mut ts, enum_name.as_str());
                emit_default_call(&mut ts);
            },
        }
        assert(stream_tokens(ts) =~= sample_response(*response_kind));
        ts
    }

    /// Generate mock response based on response type
    fn generate_mock_response_internal(&self, response: &OperationResponse, _is_error: bool) -> (r:
        proc_macro2::TokenStream)
        requires
            sample_response_ok(response.typ),
        ensures
            stream_tokens(r) == mock_response(*response),
    {
        proof {
            lemma_template_words();
        }
        let sample = self.generate_sample_response_value_internal(&response.typ);
        let mut ts = stream_new();
        let method: &str = match &response.status_code {
            OperationResponseStatus::Code(code) => {
                if *code == 200 {
                    "ok"
                } else if *code == 201 {
                    "created"
                } else if *code == 400 {
                    "bad_request"
                } else if *code == 500 {
                    "internal_server_error"
                } else if *code >= 400 {
                    push_ident(&mut ts, "then");
                    push_alone(&mut ts, '.');
                    push_ident(&mut ts, "status");
                    let mut code_arg = stream_new();
                    push_u16_literal(&mut code_arg, *code);
                    push_group(&mut ts, Delim::Paren, code_arg);
                    push_alone(&mut ts, '.');
                    push_ident(&mut ts, "json_body_obj");
                    emit_ref_arg(&mut ts, &sample);
                    push_alone(&mut ts, ';');
                    assert(stream_tokens(ts) =~= mock_response(*response));
                    return ts;
                } else {
                    "ok"
                }
            },
            OperationResponseStatus::Range(range) => {
                if *range == 4 {
                    "bad_request"
                } else if *range == 5 {
                    "internal_server_error"
                } else {
                    "ok"
                }
            },
            OperationResponseStatus::Default => "ok",
        };
        assert(then_method(response.status_code) == Some(method@));
        push_ident(&mut ts, "then");
        push_alone(&mut ts, '.');
        push_ident(&mut ts, method);
        emit_ref_arg(&mut ts, &sample);
        push_alone(&mut ts, ';');
        assert(stream_tokens(ts) =~= mock_response(*response));
        ts
    }

    /// Generate mock setup code for httpmock
    fn generate_mock_setup_internal(
        &self,
        method: &OperationMethod,
        response: &OperationResponse,
        is_error: bool,
    ) -> (r: proc_macro2::TokenStream)
        requires
            formatted_ident_ok(method.operation_id@),
            sample_response_ok(response.typ),
        ensures
            stream_tokens(r) == mock_setup(*method, *response),
    {
        proof {
            lemma_template_words();
        }
        let mut when_conditions = stream_new();
        match find_body_param(method) {
            Some(body_param) => {
                let sample_value = self.generate_sample_value_internal(body_param);
                push_ident(&mut when_conditions, "when");
                push_alone(&mut when_conditions, '.');
                push_ident(&mut when_conditions, "body");
                emit_ref_arg(&mut when_conditions, &sample_value);
                push_alone(&mut when_conditions, ';');
            },
            None => {
                push_ident(&mut when_conditions, "when");
                push_alone(&mut when_conditions, ';');
            },
        }
        assert(stream_tokens(when_conditions) =~= self::when_conditions(*method));
        let then_response = self.generate_mock_response_internal(response, is_error);
        let mut closure_body = stream_new();
        push_stream(&mut closure_body, &when_conditions);
        push_stream(&mut closure_body, &then_response);
        let mut args = stream_new();
        push_alone(&mut args, '|');
        push_ident(&mut args, "when");
        push_alone(&mut args, ',');
        push_ident(&mut args, "then");
        push_alone(&mut args, '|');
        push_group(&mut args, Delim::Brace, closure_body);
        let mut ts = stream_new();
        push_ident(&mut ts, "let");
        push_ident(&mut ts, "_mock");
        push_alone(&mut ts, '=');
        push_ident(&mut ts, "server");
        push_alone(&mut ts, '.');
        push_formatted_ident(&mut ts, method.operation_id.as_str());
        push_group(&mut ts, Delim::Paren, args);
        push_alone(&mut ts, ';');
        assert(stream_tokens(ts) =~= mock_setup(*method, *response));
        ts
    }

    /// Generate the operation call code for tests: an argument for every
    /// parameter, with a value for the parameter at `focus` also when it is
    /// optional.
    fn generate_operation_call_internal(
        &self,
        method: &OperationMethod,
        _expect_error: bool,
        focus: Option<usize>,
    ) -> (r: proc_macro2::TokenStream)
        requires
            formatted_ident_ok(method.operation_id@),
        ensures
            stream_tokens(r) == operation_call(*method, focus_index(focus)),
    {
        proof {
            lemma_template_words();
        }
        let ghost f = focus_index(focus);
        let mut args = stream_new();
        let n = method.params.len();
        let mut i: usize = 0;
        while i < n
            invariant
                n == method.params@.len(),
                i <= n,
                f == focus_index(focus),
                stream_tokens(args) == call_args_upto(*method, f, i as int),
            decreases n - i,
        {
            proof {
                lemma_template_words();
            }
            let param = &method.params[i];
            if i > 0 {
                push_alone(&mut args, ',');
            }
            let focused = match focus {
                Some(k) => k == i,
                None => false,
            };
            assert(focused == (i as int == f));
            if is_required(param) {
                let sample = self.generate_sample_value_internal(param);
                push_alone(&mut args, '&');
                push_stream(&mut args, &sample);
            } else if focused {
                let sample = self.generate_sample_value_internal(param);
                push_ident(&mut args, "Some");
                emit_ref_arg(&mut args, &sample);
            } else {
                push_ident(&mut args, "None");
            }
            assert(stream_tokens(args) =~= call_args_upto(*method, f, i + 1));
            i = i + 1;
        }
        let mut ts = stream_new();
        push_ident(&mut ts, "let");
        push_ident(&mut ts, "result");
        push_alone(&mut ts, '=');
        push_ident(&mut ts, "client");
        push_alone(&mut ts, '.');
        push_formatted_ident(&mut ts, method.operation_id.as_str());
        push_group(&mut ts, Delim::Paren, args);
        push_alone(&mut ts, '.');
        push_ident(&mut ts, "await");
        push_alone(&mut ts, ';');
        assert(stream_tokens(ts) =~= operation_call(*method, f));
        ts
    }

    /// Generate success test assertions
    fn generate_success_assertions_internal(
        &self,
        _method: &OperationMethod,
        _response: &OperationResponse,
    ) -> (r: proc_macro2::TokenStream)
        ensures
            stream_tokens(r) == success_assertions(),
    {
        proof {
            lemma_template_words();
        }
        let mut check = stream_new();
        push_ident(&mut check, "result");
        push_alone(&mut check, '.');
        push_ident(&mut check, "is_ok");
        push_empty_parens(&mut check);
        let mut ts = stream_new();
        push_ident(&mut ts, "assert");
        push_alone(&mut ts, '!');
        push_group(&mut ts, Delim::Paren, check);
        push_alone(&mut ts, ';');
        push_ident(&mut ts, "let");
        push_ident(&mut ts, "response");
        push_alone(&mut ts, '=');
        push_ident(&mut ts, "result");
        push_alone(&mut ts, '.');
        push_ident(&mut ts, "unwrap");
        push_empty_parens(&mut ts);
        push_alone(&mut ts, ';');
        assert(stream_tokens(ts) =~= success_assertions());
        ts
    }

    /// Generate error test assertions
    fn generate_error_assertions_internal(
        &self,
        _method: &OperationMethod,
        _response: &OperationResponse,
    ) -> (r: proc_macro2::TokenStream)
        ensures
            stream_tokens(r) == error_assertions(),
    {
        emit_result_check(false)
    }
}

/// `assert!(result.is_ok());` or `assert!(result.is_err());`.
fn emit_result_check(expect_ok: bool) -> (r: proc_macro2::TokenStream)
    ensures
        stream_tokens(r) == if expect_ok {
            ok_assertion()
        } else {
            error_assertions()
        },
{
    proof {
        lemma_template_words();
    }
    let mut check = stream_new();
    push_ident(&mut check, "result");
    push_alone(&mut check, '.');
    if expect_ok {
        push_ident(&mut check, "is_ok");
    } else {
        push_ident(&mut check, "is_err");
    }
    push_empty_parens(&mut check);
    let mut ts = stream_new();
    push_ident(&mut ts, "assert");
    push_alone(&mut ts, '!');
    push_group(&mut ts, Delim::Paren, check);
    push_alone(&mut ts, ';');
    assert(stream_tokens(ts) =~= if expect_ok {
        ok_assertion()
    } else {
        error_assertions()
    });
    ts
}

/// The name and documentation of the success test for a response.
fn success_name_and_doc(method: &OperationMethod, suffix: &str, response: &OperationResponse) -> (r: (
    String,
    String,
))
    requires
        suffix@ == status_suffix(response.status_code),
    ensures
        r.0@ == success_test_name(*method, *response),
        r.1@ == success_doc(*method, *response),
{
    let name = concat4("test_", method.operation_id.as_str(), "_success_", suffix);
    let mut doc = concat4("Test successful ", summary_str(method), " with ", suffix);
    doc.append(" response");
    (name, doc)
}

/// The name and documentation of the error test for a response.
fn error_name_and_doc(method: &OperationMethod, suffix: &str, response: &OperationResponse) -> (r: (
    String,
    String,
))
    requires
        suffix@ == status_suffix(response.status_code),
    ensures
        r.0@ == error_test_name(*method, *response),
        r.1@ == error_doc(*method, *response),
{
    let name = concat4("test_", method.operation_id.as_str(), "_error_", suffix);
    let mut doc = concat4("Test error case for ", summary_str(method), " with ", suffix);
    doc.append(" response");
    (name, doc)
}

/// The name and documentation of the test for a parameter.
fn param_name_and_doc(method: &OperationMethod, param: &OperationParameter) -> (r: (String, String))
    ensures
        r.0@ == param_test_name(*method, *param),
        r.1@ == param_doc(*method, *param),
{
    let name = concat4("test_", method.operation_id.as_str(), "_param_", param.name.as_str());
    let doc = concat4("Test ", method.operation_id.as_str(), " with parameter ", param.name.as_str());
    (name, doc)
}

/// Whether every identifier that a sample response needs can be formed.
fn check_sample_response(kind: &OperationResponseKind) -> (r: bool)
    ensures
        r == sample_response_ok(*kind),
{
    match kind {
        OperationResponseKind::Multiple { enum_name } => is_formatted_ident_text(enum_name.as_str()),
        _ => true,
    }
}

proof fn lemma_streams_push(v: Seq<proc_macro2::TokenStream>, t: proc_macro2::TokenStream)
    ensures
        streams_tokens(v.push(t)) == streams_tokens(v).push(stream_tokens(t)),
{
    assert(streams_tokens(v.push(t)) =~= streams_tokens(v).push(stream_tokens(t)));
}

proof fn lemma_streams_concat(a: Seq<proc_macro2::TokenStream>, b: Seq<proc_macro2::TokenStream>)
    ensures
        streams_tokens(a + b) == streams_tokens(a) + streams_tokens(b),
{
    assert(streams_tokens(a + b) =~= streams_tokens(a) + streams_tokens(b));
}

/// Moves the streams of `more` to the end of `all`.
fn append_streams(all: &mut Vec<proc_macro2::TokenStream>, more: Vec<proc_macro2::TokenStream>)
    ensures
        streams_tokens(final(all)@) == streams_tokens(old(all)@) + streams_tokens(more@),
{
    let mut more = more;
    let ghost all0 = all@;
    let ghost more0 = more@;
    all.append(&mut more);
    proof {
        lemma_streams_concat(all0, more0);
    }
}

impl Generator {
    /// Generate success case tests for an operation
    fn generate_success_tests_internal(
        &self,
        method: &OperationMethod,
        _crate_path: &str,
        documented: bool,
    ) -> (r: Vec<proc_macro2::TokenStream>)
        requires
            success_tests_ok(*method),
        ensures
            streams_tokens(r@) == success_tests(*method, documented),
    {
        let mut tests: Vec<proc_macro2::TokenStream> = Vec::new();
        let n = method.responses.len();
        let mut i: usize = 0;
        while i < n
            invariant
                n == method.responses@.len(),
                i <= n,
                success_tests_ok(*method),
                streams_tokens(tests@) == success_tests_upto(*method, i as int, documented),
            decreases n - i,
        {
            let response = &method.responses[i];
            if response.status_code.is_success_or_default() {
                assert(success_test_ok(*method, method.responses@[i as int]));
                let suffix = self.response_status_suffix_internal(&response.status_code);
                let (name, doc) = success_name_and_doc(method, suffix.as_str(), response);
                let operation_call = self.generate_operation_call_internal(method, false, None);
                let mock_setup = self.generate_mock_setup_internal(method, response, false);
                let assertions = self.generate_success_assertions_internal(method, response);
                let mut body = stream_new();
                push_stream(&mut body, &mock_setup);
                push_stream(&mut body, &operation_call);
                push_stream(&mut body, &assertions);
                let mut test = stream_new();
                emit_test_fn(&mut test, name.as_str(), doc.as_str(), documented, &body);
                assert(stream_tokens(test) =~= success_test(*method, *response, documented));
                proof {
                    lemma_streams_push(tests@, test);
                }
                tests.push(test);
            }
            assert(success_tests_upto(*method, i + 1, documented) =~= streams_tokens(tests@));
            i = i + 1;
        }
        tests
    }

    /// Generate error case tests for an operation
    fn generate_error_tests_internal(
        &self,
        method: &OperationMethod,
        _crate_path: &str,
        documented: bool,
    ) -> (r: Vec<proc_macro2::TokenStream>)
        requires
            error_tests_ok(*method),
        ensures
            streams_tokens(r@) == error_tests(*method, documented),
    {
        let mut tests: Vec<proc_macro2::TokenStream> = Vec::new();
        let n = method.responses.len();
        let mut i: usize = 0;
        while i < n
            invariant
                n == method.responses@.len(),
                i <= n,
                error_tests_ok(*method),
                streams_tokens(tests@) == error_tests_upto(*method, i as int, documented),
            decreases n - i,
        {
            let response = &method.responses[i];
            if response.status_code.is_error_or_default()
                && !response.status_code.is_success_or_default() {
                assert(error_test_ok(*method, method.responses@[i as int]));
                let suffix = self.response_status_suffix_internal(&response.status_code);
                let (name, doc) = error_name_and_doc(method, suffix.as_str(), response);
                let operation_call = self.generate_operation_call_internal(method, true, None);
                let mock_setup = self.generate_mock_setup_internal(method, response, true);
                let assertions = self.generate_error_assertions_internal(method, response);
                let mut body = stream_new();
                push_stream(&mut body, &mock_setup);
                push_stream(&mut body, &operation_call);
                push_stream(&mut body, &assertions);
                let mut test = stream_new();
                emit_test_fn(&mut test, name.as_str(), doc.as_str(), documented, &body);
                assert(stream_tokens(test) =~= error_test(*method, *response, documented));
                proof {
                    lemma_streams_push(tests@, test);
                }
                tests.push(test);
            }
            assert(error_tests_upto(*method, i + 1, documented) =~= streams_tokens(tests@));
            i = i + 1;
        }
        tests
    }

    /// The body of the test of the `index`-th parameter.
    fn generate_parameter_test_body(&self, method: &OperationMethod, index: usize) -> (r:
        proc_macro2::TokenStream)
        requires
            index < method.params@.len(),
            param_test_ok(*method, index as int),
        ensures
            stream_tokens(r) == param_test_body(*method, index as int),
    {
        let operation_call = self.generate_operation_call_internal(method, false, Some(index));
        let mut body = stream_new();
        match find_first_success(method) {
            Some(response) => {
                let mock_setup = self.generate_mock_setup_internal(method, response, false);
                push_stream(&mut body, &mock_setup);
                push_stream(&mut body, &operation_call);
                let check = emit_result_check(true);
                push_stream(&mut body, &check);
            },
            None => {
                push_stream(&mut body, &operation_call);
                let check = emit_result_check(false);
                push_stream(&mut body, &check);
            },
        }
        assert(stream_tokens(body) =~= param_test_body(*method, index as int));
        body
    }

    /// Generate parameter validation tests
    fn generate_parameter_tests_internal(
        &self,
        method: &OperationMethod,
        _crate_path: &str,
        documented: bool,
    ) -> (r: Vec<proc_macro2::TokenStream>)
        requires
            param_tests_ok(*method),
        ensures
            streams_tokens(r@) == param_tests(*method, documented),
    {
        let mut tests: Vec<proc_macro2::TokenStream> = Vec::new();
        let n = method.params.len();
        let mut i: usize = 0;
        while i < n
            invariant
                n == method.params@.len(),
                i <= n,
                param_tests_ok(*method),
                streams_tokens(tests@) == param_tests_upto(*method, i as int, documented),
            decreases n - i,
        {
            let param = &method.params[i];
            assert(param_test_ok(*method, i as int));
            let (name, doc) = param_name_and_doc(method, param);
            let body = self.generate_parameter_test_body(method, i);
            let mut test = stream_new();
            emit_test_fn(&mut test, name.as_str(), doc.as_str(), documented, &body);
            assert(stream_tokens(test) =~= param_test(*method, i as int, documented));
            proof {
                lemma_streams_push(tests@, test);
            }
            tests.push(test);
            assert(param_tests_upto(*method, i + 1, documented) =~= streams_tokens(tests@));
            i = i + 1;
        }
        tests
    }

    /// How many operations document a success response, counting up to two.
    fn count_workflow_steps(&self, methods: &Vec<OperationMethod>) -> (r: usize)
        ensures
            r == if workflow_len_upto(methods@, methods@.len() as int) >= 2 {
                2
            } else {
                workflow_len_upto(methods@, methods@.len() as int)
            },
    {
        let n = methods.len();
        let mut count: usize = 0;
        let mut i: usize = 0;
        while i < n
            invariant
                n == methods@.len(),
                i <= n,
                count <= 2,
                count == if workflow_len_upto(methods@, i as int) >= 2 {
                    2
                } else {
                    workflow_len_upto(methods@, i as int)
                },
            decreases n - i,
        {
            if count < 2 {
                match find_first_success(&methods[i]) {
                    Some(_) => {
                        count = count + 1;
                    },
                    None => {},
                }
            }
            i = i + 1;
        }
        count
    }

    /// Generate integration tests that test multiple operations together: one
    /// test that runs, in order, every operation that documents a success
    /// response, when there are at least two of them.
    fn generate_integration_tests_internal(
        &self,
        methods: &Vec<OperationMethod>,
        _crate_path: &str,
        documented: bool,
    ) -> (r: Vec<proc_macro2::TokenStream>)
        requires
            integration_ok(methods@),
        ensures
            streams_tokens(r@) == integration_tests(methods@, documented),
    {
        let mut tests: Vec<proc_macro2::TokenStream> = Vec::new();
        if self.count_workflow_steps(methods) < 2 {
            assert(streams_tokens(tests@) =~= integration_tests(methods@, documented));
            return tests;
        }
        let mut steps = stream_new();
        let n = methods.len();
        let mut i: usize = 0;
        while i < n
            invariant
                n == methods@.len(),
                i <= n,
                workflow_len_upto(methods@, n as int) >= 2,
                integration_ok(methods@),
                stream_tokens(steps) == workflow_upto(methods@, i as int),
            decreases n - i,
        {
            let method = &methods[i];
            match find_first_success(method) {
                Some(response) => {
                    assert(workflow_step_ok(methods@[i as int]));
                    let mock_setup = self.generate_mock_setup_internal(method, response, false);
                    let operation_call = self.generate_operation_call_internal(method, false, None);
                    let check = emit_result_check(true);
                    push_stream(&mut steps, &mock_setup);
                    push_stream(&mut steps, &operation_call);
                    push_stream(&mut steps, &check);
                },
                None => {},
            }
            assert(stream_tokens(steps) =~= workflow_upto(methods@, i + 1));
            i = i + 1;
        }
        let mut test = stream_new();
        proof {
            reveal_strlit("test_integration_workflow");
            lemma_word("test_integration_workflow"@);
        }
        assert(formatted_ident_ok("test_integration_workflow"@));
        emit_test_fn(
            &mut test,
            "test_integration_workflow",
            "Test a workflow that combines the operations in order",
            documented,
            &steps,
        );
        proof {
            lemma_streams_push(tests@, test);
        }
        tests.push(test);
        assert(streams_tokens(tests@) =~= integration_tests(methods@, documented));
        tests
    }

    /// The tests of every operation, in order.
    fn generate_test_functions(
        &self,
        methods: &Vec<OperationMethod>,
        crate_path: &str,
        config: &TestGenerationConfig,
    ) -> (r: Vec<proc_macro2::TokenStream>)
        requires
            tests_ok(methods@, *config),
        ensures
            streams_tokens(r@) == all_tests(methods@, *config),
    {
        let mut test_functions: Vec<proc_macro2::TokenStream> = Vec::new();
        let n = methods.len();
        let mut i: usize = 0;
        while i < n
            invariant
                n == methods@.len(),
                i <= n,
                tests_ok(methods@, *config),
                streams_tokens(test_functions@) == all_tests_upto(methods@, *config, i as int),
            decreases n - i,
        {
            let method = &methods[i];
            assert(method_tests_ok(methods@[i as int], *config));
            let ghost before = streams_tokens(test_functions@);
            let ghost m = *method;
            if config.generate_success_tests {
                append_streams(
                    &mut test_functions,
                    self.generate_success_tests_internal(method, crate_path, config.include_documentation),
                );
            }
            assert(streams_tokens(test_functions@) == before + (if config.generate_success_tests {
                success_tests(m, config.include_documentation)
            } else {
                Seq::<Seq<TokV>>::empty()
            }));
            if config.generate_error_tests {
                append_streams(
                    &mut test_functions,
                    self.generate_error_tests_internal(method, crate_path, config.include_documentation),
                );
            }
            assert(streams_tokens(test_functions@) =~= before + (if config.generate_success_tests {
                success_tests(m, config.include_documentation)
            } else {
                Seq::<Seq<TokV>>::empty()
            }) + (if config.generate_error_tests {
                error_tests(m, config.include_documentation)
            } else {
                Seq::<Seq<TokV>>::empty()
            }));
            if config.generate_parameter_tests {
                append_streams(
                    &mut test_functions,
                    self.generate_parameter_tests_internal(method, crate_path, config.include_documentation),
                );
            }
            assert(streams_tokens(test_functions@) =~= before + method_tests(m, *config));
            i = i + 1;
        }
        if config.generate_integration_tests {
            let integration = self.generate_integration_tests_internal(
                methods,
                crate_path,
                config.include_documentation,
            );
            append_streams(&mut test_functions, integration);
        }
        assert(streams_tokens(test_functions@) =~= all_tests(methods@, *config));
        test_functions
    }
}

proof fn lemma_flatten_take(ss: Seq<Seq<TokV>>, k: int)
    requires
        0 <= k < ss.len(),
    ensures
        flatten(ss.take(k + 1)) == flatten(ss.take(k)) + ss[k],
{
    assert(ss.take(k + 1).drop_last() =~= ss.take(k));
}

/// Appends the tokens of every stream of a list, one after the other.
fn emit_all(ts: &mut proc_macro2::TokenStream, streams: &Vec<proc_macro2::TokenStream>)
    ensures
        stream_tokens(*final(ts)) == stream_tokens(*old(ts)) + flatten(streams_tokens(streams@)),
{
    let n = streams.len();
    let mut k: usize = 0;
    assert(streams_tokens(streams@).take(0) =~= Seq::<Seq<TokV>>::empty());
    while k < n
        invariant
            n == streams@.len(),
            k <= n,
            stream_tokens(*ts) == stream_tokens(*old(ts)) + flatten(
                streams_tokens(streams@).take(k as int),
            ),
        decreases n - k,
    {
        push_stream(ts, &streams[k]);
        proof {
            lemma_flatten_take(streams_tokens(streams@), k as int);
        }
        assert(stream_tokens(*ts) =~= stream_tokens(*old(ts)) + flatten(
            streams_tokens(streams@).take(k + 1),
        ));
        k = k + 1;
    }
    assert(streams_tokens(streams@).take(n as int) =~= streams_tokens(streams@));
}

/// Writes the test module around the tests.
fn emit_module(
    name: &str,
    crate_path: &proc_macro2::TokenStream,
    tests: &proc_macro2::TokenStream,
) -> (r: proc_macro2::TokenStream)
    requires
        formatted_ident_ok(name@),
    ensures
        stream_tokens(r) == module_tokens(name@, stream_tokens(*crate_path), stream_tokens(*tests)),
{
    proof {
        lemma_template_words();
    }
    let mut cfg_args = stream_new();
    push_ident(&mut cfg_args, "test");
    let mut cfg_attr = stream_new();
    push_ident(&mut cfg_attr, "cfg");
    push_group(&mut cfg_attr, Delim::Paren, cfg_args);
    let mut imported = stream_new();
    push_ident(&mut imported, "MockServerExt");
    push_alone(&mut imported, ',');
    push_ident(&mut imported, "operations");
    let mut body = stream_new();
    push_ident(&mut body, "use");
    push_ident(&mut body, "super");
    push_colon2(&mut body);
    push_alone(&mut body, '*');
    push_alone(&mut body, ';');
    push_ident(&mut body, "use");
    push_stream(&mut body, crate_path);
    push_colon2(&mut body);
    push_ident(&mut body, "httpmock");
    push_colon2(&mut body);
    push_group(&mut body, Delim::Brace, imported);
    push_alone(&mut body, ';');
    push_ident(&mut body, "use");
    push_colon2(&mut body);
    push_ident(&mut body, "httpmock");
    push_colon2(&mut body);
    push_ident(&mut body, "prelude");
    push_colon2(&mut body);
    push_alone(&mut body, '*');
    push_alone(&mut body, ';');
    push_ident(&mut body, "use");
    push_ident(&mut body, "tokio");
    push_alone(&mut body, ';');
    push_stream(&mut body, tests);
    let mut ts = stream_new();
    push_alone(&mut ts, '#');
    push_group(&mut ts, Delim::Bracket, cfg_attr);
    push_ident(&mut ts, "pub");
    push_ident(&mut ts, "mod");
    push_formatted_ident(&mut ts, name);
    push_group(&mut ts, Delim::Brace, body);
    assert(stream_tokens(ts) =~= module_tokens(
        name@,
        stream_tokens(*crate_path),
        stream_tokens(*tests),
    ));
    ts
}

impl Generator {
    /// Generate comprehensive unit tests using httpmock
    ///
    /// The `crate_path` parameter should be a valid Rust path corresponding to
    /// the SDK. This can include `::` and instances of `-` in the crate name
    /// should be converted to `_`.
    pub fn generate_tests_impl(
        &mut self,
        methods: &Vec<OperationMethod>,
        crate_path: &str,
        config: &TestGenerationConfig,
    ) -> (r: proc_macro2::TokenStream)
        requires
            generation_ok(methods@, crate_path@, *config),
        ensures
            stream_tokens(r) == generated_module(methods@, crate_path@, *config),
    {
        let test_functions = self.generate_test_functions(methods, crate_path, config);
        let mut tests = stream_new();
        emit_all(&mut tests, &test_functions);
        let path = match path_tokens(crate_path) {
            Some(p) => p,
            None => {
                proof {
                    assert(false);
                }
                stream_new()
            },
        };
        emit_module(config.test_module_name.as_str(), &path, &tests)
    }

    /// Whether every identifier that the configured tests of an operation need can be formed.
    fn check_method_idents(&self, method: &OperationMethod, config: &TestGenerationConfig) -> (r:
        bool)
        ensures
            r == method_tests_ok(*method, *config),
    {
        let op_ok = is_formatted_ident_text(method.operation_id.as_str());
        let n = method.responses.len();
        if config.generate_success_tests {
            let mut i: usize = 0;
            while i < n
                invariant
                    n == method.responses@.len(),
                    i <= n,
                    op_ok == formatted_ident_ok(method.operation_id@),
                    config.generate_success_tests,
                    forall|j: int|
                        0 <= j < i && is_success_or_default(method.responses@[j].status_code)
                            ==> success_test_ok(*method, #[trigger] method.responses@[j]),
                decreases n - i,
            {
                let response = &method.responses[i];
                if response.status_code.is_success_or_default() {
                    let suffix = self.response_status_suffix_internal(&response.status_code);
                    let (name, _doc) = success_name_and_doc(method, suffix.as_str(), response);
                    if !(is_formatted_ident_text(name.as_str()) && op_ok && check_sample_response(
                        &response.typ,
                    )) {
                        assert(!success_test_ok(*method, method.responses@[i as int]));
                        assert(is_success_or_default(method.responses@[i as int].status_code));
                        assert(!success_tests_ok(*method));
                        return false;
                    }
                }
                i = i + 1;
            }
        }
        if config.generate_error_tests {
            let mut i: usize = 0;
            while i < n
                invariant
                    n == method.responses@.len(),
                    i <= n,
                    op_ok == formatted_ident_ok(method.operation_id@),
                    config.generate_success_tests ==> success_tests_ok(*method),
                    config.generate_error_tests,
                    forall|j: int|
                        0 <= j < i && gets_error_test(method.responses@[j].status_code)
                            ==> error_test_ok(*method, #[trigger] method.responses@[j]),
                decreases n - i,
            {
                let response = &method.responses[i];
                if response.status_code.is_error_or_default()
                    && !response.status_code.is_success_or_default() {
                    let suffix = self.response_status_suffix_internal(&response.status_code);
                    let (name, _doc) = error_name_and_doc(method, suffix.as_str(), response);
                    if !(is_formatted_ident_text(name.as_str()) && op_ok && check_sample_response(
                        &response.typ,
                    )) {
                        assert(!error_test_ok(*method, method.responses@[i as int]));
                        assert(gets_error_test(method.responses@[i as int].status_code));
                        assert(!error_tests_ok(*method));
                        return false;
                    }
                }
                i = i + 1;
            }
        }
        if config.generate_parameter_tests {
            let first_ok = match find_first_success(method) {
                Some(response) => check_sample_response(&response.typ),
                None => true,
            };
            let np = method.params.len();
            let mut i: usize = 0;
            while i < np
                invariant
                    np == method.params@.len(),
                    i <= np,
                    op_ok == formatted_ident_ok(method.operation_id@),
                    first_ok == (first_success(*method) matches Some(r) ==> sample_response_ok(r.typ)),
                    config.generate_success_tests ==> success_tests_ok(*method),
                    config.generate_error_tests ==> error_tests_ok(*method),
                    config.generate_parameter_tests,
                    forall|j: int| 0 <= j < i ==> #[trigger] param_test_ok(*method, j),
                decreases np - i,
            {
                let param = &method.params[i];
                let (name, _doc) = param_name_and_doc(method, param);
                if !(is_formatted_ident_text(name.as_str()) && op_ok && first_ok) {
                    assert(!param_test_ok(*method, i as int));
                    assert(!param_tests_ok(*method));
                    return false;
                }
                assert(param_test_ok(*method, i as int));
                i = i + 1;
            }
        }
        true
    }

    /// Whether every identifier that the integration tests need can be formed.
    fn check_integration_idents(&self, methods: &Vec<OperationMethod>) -> (r: bool)
        ensures
            r == integration_ok(methods@),
    {
        if self.count_workflow_steps(methods) < 2 {
            return true;
        }
        let n = methods.len();
        let mut i: usize = 0;
        while i < n
            invariant
                n == methods@.len(),
                i <= n,
                workflow_len_upto(methods@, n as int) >= 2,
                forall|j: int| 0 <= j < i ==> workflow_step_ok(#[trigger] methods@[j]),
            decreases n - i,
        {
            let method = &methods[i];
            let ok = match find_first_success(method) {
                Some(response) => is_formatted_ident_text(method.operation_id.as_str())
                    && check_sample_response(&response.typ),
                None => true,
            };
            if !ok {
                assert(!workflow_step_ok(methods@[i as int]));
                return false;
            }
            i = i + 1;
        }
        true
    }

    /// Whether every identifier that the configured tests need can be formed.
    fn check_test_idents(&self, methods: &Vec<OperationMethod>, config: &TestGenerationConfig) -> (r:
        bool)
        ensures
            r == tests_ok(methods@, *config),
    {
        let n = methods.len();
        let mut i: usize = 0;
        while i < n
            invariant
                n == methods@.len(),
                i <= n,
                forall|j: int| 0 <= j < i ==> method_tests_ok(#[trigger] methods@[j], *config),
            decreases n - i,
        {
            if !self.check_method_idents(&methods[i], config) {
                return false;
            }
            i = i + 1;
        }
        if config.generate_integration_tests {
            self.check_integration_idents(methods)
        } else {
            true
        }
    }

    /// Generates the test module, or says why it cannot: a name that would
    /// have to become an identifier and cannot, or a crate path that does not
    /// parse (the identifiers are checked first).
    pub fn generate_tests(
        &mut self,
        methods: &Vec<OperationMethod>,
        crate_path: &str,
        config: &TestGenerationConfig,
    ) -> (r: Result<proc_macro2::TokenStream, TestGenError>)
        ensures
            r is Ok <==> generation_ok(methods@, crate_path@, *config),
            r matches Ok(t) ==> stream_tokens(t) == generated_module(methods@, crate_path@, *config),
            r == Err::<proc_macro2::TokenStream, TestGenError>(TestGenError::InvalidIdentifier) <==> !(
            tests_ok(methods@, *config) && formatted_ident_ok(config.test_module_name@)),
            r == Err::<proc_macro2::TokenStream, TestGenError>(TestGenError::InvalidCratePath) <==> (
            tests_ok(methods@, *config) && formatted_ident_ok(config.test_module_name@)
                && parsed_path(crate_path@) is None),
    {
        if !(self.check_test_idents(methods, config) && is_formatted_ident_text(
            config.test_module_name.as_str(),
        )) {
            return Err(TestGenError::InvalidIdentifier);
        }
        match path_tokens(crate_path) {
            Some(_) => Ok(self.generate_tests_impl(methods, crate_path, config)),
            None => Err(TestGenError::InvalidCratePath),
        }
    }
}

// ---------------------------------------------------------------------------
// Laws of the generated tests
// ---------------------------------------------------------------------------

/// A response gets a success test or an error test, never both; the default
/// response gets a success test.
pub proof fn lemma_one_kind_per_response(s: OperationResponseStatus)
    ensures
        !(is_success_or_default(s) && gets_error_test(s)),
        s == OperationResponseStatus::Default ==> is_success_or_default(s) && !gets_error_test(s),
{
}

/// The number of responses among the first `i` whose test is of the kind `pick` selects.
pub open spec fn count_responses(m: OperationMethod, i: int, success: bool) -> nat
    decreases i,
{
    if i <= 0 || i > m.responses@.len() {
        0
    } else {
        let s = m.responses@[i - 1].status_code;
        count_responses(m, i - 1, success) + if (success && is_success_or_default(s)) || (!success
            && gets_error_test(s)) {
            1nat
        } else {
            0nat
        }
    }
}

/// How many tests the configuration asks for an operation: one per success
/// response, one per error response, one per parameter, for each kind it enables.
pub open spec fn method_test_count(m: OperationMethod, c: TestGenerationConfig) -> nat {
    (if c.generate_success_tests {
        count_responses(m, m.responses@.len() as int, true)
    } else {
        0nat
    }) + (if c.generate_error_tests {
        count_responses(m, m.responses@.len() as int, false)
    } else {
        0nat
    }) + (if c.generate_parameter_tests {
        m.params@.len()
    } else {
        0nat
    })
}

pub open spec fn test_count_upto(ms: Seq<OperationMethod>, c: TestGenerationConfig, i: int) -> nat
    decreases i,
{
    if i <= 0 || i > ms.len() {
        0
    } else {
        test_count_upto(ms, c, i - 1) + method_test_count(ms[i - 1], c)
    }
}

proof fn lemma_kind_counts(m: OperationMethod, i: int, d: bool)
    requires
        0 <= i <= m.responses@.len(),
    ensures
        success_tests_upto(m, i, d).len() == count_responses(m, i, true),
        error_tests_upto(m, i, d).len() == count_responses(m, i, false),
    decreases i,
{
    if i > 0 {
        lemma_kind_counts(m, i - 1, d);
    }
}

proof fn lemma_param_count(m: OperationMethod, i: int, d: bool)
    requires
        0 <= i <= m.params@.len(),
    ensures
        param_tests_upto(m, i, d).len() == i,
    decreases i,
{
    if i > 0 {
        lemma_param_count(m, i - 1, d);
    }
}

/// One integration test when the configuration asks for them and at least
/// two operations document a success response, none otherwise.
pub open spec fn integration_count(ms: Seq<OperationMethod>, c: TestGenerationConfig) -> nat {
    if c.generate_integration_tests && workflow_len_upto(ms, ms.len() as int) >= 2 {
        1
    } else {
        0
    }
}

/// The generated tests number exactly one per success response, one per error
/// response and one per parameter of every operation, for the kinds that the
/// configuration enables, and one integration test when it asks for one and
/// there are two operations or more to combine.
pub proof fn lemma_test_count(ms: Seq<OperationMethod>, c: TestGenerationConfig)
    ensures
        all_tests(ms, c).len() == test_count_upto(ms, c, ms.len() as int) + integration_count(ms, c),
{
    lemma_test_count_upto(ms, c, ms.len() as int);
}

proof fn lemma_test_count_upto(ms: Seq<OperationMethod>, c: TestGenerationConfig, i: int)
    requires
        0 <= i <= ms.len(),
    ensures
        all_tests_upto(ms, c, i).len() == test_count_upto(ms, c, i),
    decreases i,
{
    if i > 0 {
        lemma_test_count_upto(ms, c, i - 1);
        let m = ms[i - 1];
        lemma_kind_counts(m, m.responses@.len() as int, c.include_documentation);
        lemma_param_count(m, m.params@.len() as int, c.include_documentation);
    }
}

/// The names of the success tests for the first `i` responses.
pub open spec fn success_names_upto(m: OperationMethod, i: int) -> Seq<Seq<char>>
    decreases i,
{
    if i <= 0 || i > m.responses@.len() {
        Seq::empty()
    } else {
        let r = m.responses@[i - 1];
        success_names_upto(m, i - 1) + if is_success_or_default(r.status_code) {
            seq![success_test_name(m, r)]
        } else {
            Seq::empty()
        }
    }
}

/// The names of the error tests for the first `i` responses.
pub open spec fn error_names_upto(m: OperationMethod, i: int) -> Seq<Seq<char>>
    decreases i,
{
    if i <= 0 || i > m.responses@.len() {
        Seq::empty()
    } else {
        let r = m.responses@[i - 1];
        error_names_upto(m, i - 1) + if gets_error_test(r.status_code) {
            seq![error_test_name(m, r)]
        } else {
            Seq::empty()
        }
    }
}

/// The names of the parameter tests for the first `i` parameters.
pub open spec fn param_names_upto(m: OperationMethod, i: int) -> Seq<Seq<char>>
    decreases i,
{
    if i <= 0 || i > m.params@.len() {
        Seq::empty()
    } else {
        param_names_upto(m, i - 1) + seq![param_test_name(m, m.params@[i - 1])]
    }
}

/// The names of the tests of an operation, in the order of its tests.
pub open spec fn method_test_names(m: OperationMethod, c: TestGenerationConfig) -> Seq<Seq<char>> {
    (if c.generate_success_tests {
        success_names_upto(m, m.responses@.len() as int)
    } else {
        Seq::empty()
    }) + (if c.generate_error_tests {
        error_names_upto(m, m.responses@.len() as int)
    } else {
        Seq::empty()
    }) + (if c.generate_parameter_tests {
        param_names_upto(m, m.params@.len() as int)
    } else {
        Seq::empty()
    })
}

/// The token that names the function of a test: it follows `#[tokio::test]`,
/// the documentation attribute when there is one, and `async fn`.
pub open spec fn declared_name(t: Seq<TokV>, documented: bool) -> TokV {
    if documented {
        t[15]
    } else {
        t[9]
    }
}

proof fn lemma_test_fn_name(name: Seq<char>, doc: Seq<char>, d: bool, body: Seq<TokV>)
    ensures
        test_fn(name, doc, d, body).len() > 15,
        declared_name(test_fn(name, doc, d, body), d) == formatted_ident(name),
{
    let attr = seq![punct('#')] + group(
        Delim::Bracket,
        seq![ident("tokio"@)] + colon2() + seq![ident("test"@)],
    );
    let doc_attr = doc_attr(doc, d);
    let head = attr + doc_attr + seq![ident("async"@), ident("fn"@), formatted_ident(name)];
    assert(attr.len() == 7);
    assert(doc_attr.len() == if d {
        6int
    } else {
        0int
    });
    assert(head.len() == if d {
        16int
    } else {
        10int
    });
    assert(head[head.len() - 1] == formatted_ident(name));
    let rest = empty_parens() + group(Delim::Brace, test_prelude() + body);
    assert(rest.len() >= 8);
    assert(test_fn(name, doc, d, body) =~= head + rest);
}

/// Each test of an operation declares a function named by the corresponding
/// entry of `method_test_names`.
pub proof fn lemma_tests_declare_names(m: OperationMethod, c: TestGenerationConfig)
    ensures
        method_tests(m, c).len() == method_test_names(m, c).len(),
        forall|k: int|
            0 <= k < method_tests(m, c).len() ==> (#[trigger] method_tests(m, c)[k]).len() > 15
                && declared_name(method_tests(m, c)[k], c.include_documentation) == formatted_ident(
                method_test_names(m, c)[k],
            ),
{
    let d = c.include_documentation;
    let n = m.responses@.len() as int;
    let np = m.params@.len() as int;
    lemma_success_declares(m, n, d);
    lemma_error_declares(m, n, d);
    lemma_param_declares(m, np, d);
    let ts = if c.generate_success_tests {
        success_tests_upto(m, n, d)
    } else {
        Seq::<Seq<TokV>>::empty()
    };
    let ns = if c.generate_success_tests {
        success_names_upto(m, n)
    } else {
        Seq::<Seq<char>>::empty()
    };
    let te = if c.generate_error_tests {
        error_tests_upto(m, n, d)
    } else {
        Seq::<Seq<TokV>>::empty()
    };
    let ne = if c.generate_error_tests {
        error_names_upto(m, n)
    } else {
        Seq::<Seq<char>>::empty()
    };
    let tp = if c.generate_parameter_tests {
        param_tests_upto(m, np, d)
    } else {
        Seq::<Seq<TokV>>::empty()
    };
    let np_ = if c.generate_parameter_tests {
        param_names_upto(m, np)
    } else {
        Seq::<Seq<char>>::empty()
    };
    assert(method_tests(m, c) == ts + te + tp);
    assert(method_test_names(m, c) == ns + ne + np_);
    assert forall|k: int| 0 <= k < method_tests(m, c).len() implies (#[trigger] method_tests(
        m,
        c,
    )[k]).len() > 15 && declared_name(method_tests(m, c)[k], d) == formatted_ident(
        method_test_names(m, c)[k],
    ) by {
        if k < ts.len() {
            assert(method_tests(m, c)[k] == ts[k]);
            assert(method_test_names(m, c)[k] == ns[k]);
        } else if k < ts.len() + te.len() {
            assert(method_tests(m, c)[k] == te[k - ts.len()]);
            assert(method_test_names(m, c)[k] == ne[k - ns.len()]);
        } else {
            assert(method_tests(m, c)[k] == tp[k - ts.len() - te.len()]);
            assert(method_test_names(m, c)[k] == np_[k - ns.len() - ne.len()]);
        }
    }
}

proof fn lemma_success_declares(m: OperationMethod, i: int, d: bool)
    requires
        0 <= i <= m.responses@.len(),
    ensures
        success_tests_upto(m, i, d).len() == success_names_upto(m, i).len(),
        forall|k: int|
            0 <= k < success_tests_upto(m, i, d).len() ==> (#[trigger] success_tests_upto(m, i, d)[k]).len()
                > 15 && declared_name(success_tests_upto(m, i, d)[k], d) == formatted_ident(
                success_names_upto(m, i)[k],
            ),
    decreases i,
{
    if i > 0 {
        lemma_success_declares(m, i - 1, d);
        let r = m.responses@[i - 1];
        lemma_test_fn_name(
            success_test_name(m, r),
            success_doc(m, r),
            d,
            mock_setup(m, r) + operation_call(m, -1) + success_assertions(),
        );
        assert forall|k: int| 0 <= k < success_tests_upto(m, i, d).len() implies (
        #[trigger] success_tests_upto(m, i, d)[k]).len() > 15 && declared_name(
            success_tests_upto(m, i, d)[k],
            d,
        ) == formatted_ident(success_names_upto(m, i)[k]) by {
            if k < success_tests_upto(m, i - 1, d).len() {
                assert(success_tests_upto(m, i, d)[k] == success_tests_upto(m, i - 1, d)[k]);
                assert(success_names_upto(m, i)[k] == success_names_upto(m, i - 1)[k]);
            }
        }
    }
}

proof fn lemma_error_declares(m: OperationMethod, i: int, d: bool)
    requires
        0 <= i <= m.responses@.len(),
    ensures
        error_tests_upto(m, i, d).len() == error_names_upto(m, i).len(),
        forall|k: int|
            0 <= k < error_tests_upto(m, i, d).len() ==> (#[trigger] error_tests_upto(m, i, d)[k]).len()
                > 15 && declared_name(error_tests_upto(m, i, d)[k], d) == formatted_ident(
                error_names_upto(m, i)[k],
            ),
    decreases i,
{
    if i > 0 {
        lemma_error_declares(m, i - 1, d);
        let r = m.responses@[i - 1];
        lemma_test_fn_name(
            error_test_name(m, r),
            error_doc(m, r),
            d,
            mock_setup(m, r) + operation_call(m, -1) + error_assertions(),
        );
        assert forall|k: int| 0 <= k < error_tests_upto(m, i, d).len() implies (
        #[trigger] error_tests_upto(m, i, d)[k]).len() > 15 && declared_name(
            error_tests_upto(m, i, d)[k],
            d,
        ) == formatted_ident(error_names_upto(m, i)[k]) by {
            if k < error_tests_upto(m, i - 1, d).len() {
                assert(error_tests_upto(m, i, d)[k] == error_tests_upto(m, i - 1, d)[k]);
                assert(error_names_upto(m, i)[k] == error_names_upto(m, i - 1)[k]);
            }
        }
    }
}

proof fn lemma_param_declares(m: OperationMethod, i: int, d: bool)
    requires
        0 <= i <= m.params@.len(),
    ensures
        param_tests_upto(m, i, d).len() == param_names_upto(m, i).len(),
        forall|k: int|
            0 <= k < param_tests_upto(m, i, d).len() ==> (#[trigger] param_tests_upto(m, i, d)[k]).len()
                > 15 && declared_name(param_tests_upto(m, i, d)[k], d) == formatted_ident(
                param_names_upto(m, i)[k],
            ),
    decreases i,
{
    if i > 0 {
        lemma_param_declares(m, i - 1, d);
        let p = m.params@[i - 1];
        lemma_test_fn_name(param_test_name(m, p), param_doc(m, p), d, param_test_body(m, i - 1));
        assert forall|k: int| 0 <= k < param_tests_upto(m, i, d).len() implies (
        #[trigger] param_tests_upto(m, i, d)[k]).len() > 15 && declared_name(
            param_tests_upto(m, i, d)[k],
            d,
        ) == formatted_ident(param_names_upto(m, i)[k]) by {
            if k < param_tests_upto(m, i - 1, d).len() {
                assert(param_tests_upto(m, i, d)[k] == param_tests_upto(m, i - 1, d)[k]);
                assert(param_names_upto(m, i)[k] == param_names_upto(m, i - 1)[k]);
            }
        }
    }
}

/// The responses of an operation have pairwise distinct statuses.
pub open spec fn distinct_statuses(m: OperationMethod) -> bool {
    forall|i: int, j: int|
        0 <= i < j < m.responses@.len() ==> (#[trigger] m.responses@[i]).status_code
            != (#[trigger] m.responses@[j]).status_code
}

/// The parameters of an operation have pairwise distinct names.
pub open spec fn distinct_param_names(m: OperationMethod) -> bool {
    forall|i: int, j: int|
        0 <= i < j < m.params@.len() ==> (#[trigger] m.params@[i]).name@ != (
        #[trigger] m.params@[j]).name@
}

pub open spec fn no_duplicates(s: Seq<Seq<char>>) -> bool {
    forall|a: int, b: int| 0 <= a < b < s.len() ==> #[trigger] s[a] != #[trigger] s[b]
}

proof fn lemma_cancel_prefix(a: Seq<char>, x: Seq<char>, y: Seq<char>)
    requires
        a + x == a + y,
    ensures
        x == y,
{
    assert(x =~= (a + x).skip(a.len() as int));
    assert(y =~= (a + y).skip(a.len() as int));
}

/// The character after `test_` and the operation's name, and the underscore,
/// tells the kinds of test apart: `s`, `e` or `p`.
proof fn lemma_kind_letter(m: OperationMethod, kind: Seq<char>, rest: Seq<char>)
    requires
        kind.len() >= 2,
        kind[0] == '_',
    ensures
        ("test_"@ + m.operation_id@ + kind + rest).len() > 5 + m.operation_id@.len() as int + 1,
        ("test_"@ + m.operation_id@ + kind + rest)[5 + m.operation_id@.len() as int] == '_',
        ("test_"@ + m.operation_id@ + kind + rest)[5 + m.operation_id@.len() as int + 1] == kind[1],
{
    reveal_strlit("test_");
    let pre = "test_"@ + m.operation_id@;
    assert(pre.len() == 5 + m.operation_id@.len());
    assert((pre + kind + rest)[pre.len() as int] == kind[0]);
    assert((pre + kind + rest)[pre.len() as int + 1] == kind[1]);
}

/// A success test, an error test and a parameter test of one operation never
/// share a name, whatever the statuses of its responses and the names of its
/// parameters: the letter after the operation's name tells them apart.
pub proof fn lemma_test_kinds_never_share_names(
    m: OperationMethod,
    r1: OperationResponse,
    r2: OperationResponse,
    p: OperationParameter,
)
    ensures
        success_test_name(m, r1) != error_test_name(m, r2),
        success_test_name(m, r1) != param_test_name(m, p),
        error_test_name(m, r2) != param_test_name(m, p),
{
    reveal_strlit("_success_");
    reveal_strlit("_error_");
    reveal_strlit("_param_");
    let at = 5 + m.operation_id@.len() as int + 1;
    lemma_kind_letter(m, "_success_"@, status_suffix(r1.status_code));
    lemma_kind_letter(m, "_error_"@, status_suffix(r2.status_code));
    lemma_kind_letter(m, "_param_"@, p.name@);
    assert(success_test_name(m, r1)[at] == 's');
    assert(error_test_name(m, r2)[at] == 'e');
    assert(param_test_name(m, p)[at] == 'p');
}

/// The integration test's name is the name of no test of an operation.
pub proof fn lemma_integration_name_differs(
    m: OperationMethod,
    r: OperationResponse,
    p: OperationParameter,
)
    ensures
        integration_test_name() != success_test_name(m, r),
        integration_test_name() != error_test_name(m, r),
        integration_test_name() != param_test_name(m, p),
{
    reveal_strlit("_success_");
    reveal_strlit("_error_");
    reveal_strlit("_param_");
    reveal_strlit("test_integration_workflow");
    let w = integration_test_name();
    let at = 5 + m.operation_id@.len() as int;
    assert forall|k: int| 5 <= k < w.len() && w[k] == '_' implies k == 16 by {}
    lemma_kind_letter(m, "_success_"@, status_suffix(r.status_code));
    lemma_kind_letter(m, "_error_"@, status_suffix(r.status_code));
    lemma_kind_letter(m, "_param_"@, p.name@);
    if w == success_test_name(m, r) {
        assert(w[at] == '_');
        assert(w[at + 1] == 's');
    }
    if w == error_test_name(m, r) {
        assert(w[at] == '_');
        assert(w[at + 1] == 'e');
    }
    if w == param_test_name(m, p) {
        assert(w[at] == '_');
        assert(w[at + 1] == 'p');
    }
}

proof fn lemma_success_names(m: OperationMethod, i: int)
    requires
        0 <= i <= m.responses@.len(),
        distinct_statuses(m),
    ensures
        no_duplicates(success_names_upto(m, i)),
        forall|k: int|
            0 <= k < success_names_upto(m, i).len() ==> exists|j: int|
                0 <= j < i && #[trigger] success_names_upto(m, i)[k] == success_test_name(
                    m,
                    m.responses@[j],
                ),
    decreases i,
{
    if i > 0 {
        lemma_success_names(m, i - 1);
        let prev = success_names_upto(m, i - 1);
        let r = m.responses@[i - 1];
        let cur = success_names_upto(m, i);
        if is_success_or_default(r.status_code) {
            assert(cur == prev.push(success_test_name(m, r)));
            assert forall|k: int| 0 <= k < prev.len() implies prev[k] != success_test_name(m, r) by {
                let j = choose|j: int|
                    0 <= j < i - 1 && #[trigger] prev[k] == success_test_name(m, m.responses@[j]);
                assert(m.responses@[j].status_code != r.status_code);
                lemma_status_suffix_injective(m.responses@[j].status_code, r.status_code);
                if prev[k] == success_test_name(m, r) {
                    lemma_cancel_prefix(
                        "test_"@ + m.operation_id@ + "_success_"@,
                        status_suffix(m.responses@[j].status_code),
                        status_suffix(r.status_code),
                    );
                }
            }
            assert forall|k: int| #![trigger cur[k]] 0 <= k < cur.len() implies exists|j: int|
                0 <= j < i && #[trigger] cur[k] == success_test_name(m, m.responses@[j]) by {
                if k < prev.len() {
                    assert(cur[k] == prev[k]);
                } else {
                    assert(cur[k] == success_test_name(m, m.responses@[i - 1]));
                }
            }
        } else {
            assert(cur =~= prev);
        }
    }
}

proof fn lemma_error_names(m: OperationMethod, i: int)
    requires
        0 <= i <= m.responses@.len(),
        distinct_statuses(m),
    ensures
        no_duplicates(error_names_upto(m, i)),
        forall|k: int|
            0 <= k < error_names_upto(m, i).len() ==> exists|j: int|
                0 <= j < i && #[trigger] error_names_upto(m, i)[k] == error_test_name(
                    m,
                    m.responses@[j],
                ),
    decreases i,
{
    if i > 0 {
        lemma_error_names(m, i - 1);
        let prev = error_names_upto(m, i - 1);
        let r = m.responses@[i - 1];
        let cur = error_names_upto(m, i);
        if gets_error_test(r.status_code) {
            assert(cur == prev.push(error_test_name(m, r)));
            assert forall|k: int| 0 <= k < prev.len() implies prev[k] != error_test_name(m, r) by {
                let j = choose|j: int|
                    0 <= j < i - 1 && #[trigger] prev[k] == error_test_name(m, m.responses@[j]);
                assert(m.responses@[j].status_code != r.status_code);
                lemma_status_suffix_injective(m.responses@[j].status_code, r.status_code);
                if prev[k] == error_test_name(m, r) {
                    lemma_cancel_prefix(
                        "test_"@ + m.operation_id@ + "_error_"@,
                        status_suffix(m.responses@[j].status_code),
                        status_suffix(r.status_code),
                    );
                }
            }
            assert forall|k: int| #![trigger cur[k]] 0 <= k < cur.len() implies exists|j: int|
                0 <= j < i && #[trigger] cur[k] == error_test_name(m, m.responses@[j]) by {
                if k < prev.len() {
                    assert(cur[k] == prev[k]);
                } else {
                    assert(cur[k] == error_test_name(m, m.responses@[i - 1]));
                }
            }
        } else {
            assert(cur =~= prev);
        }
    }
}

proof fn lemma_param_names(m: OperationMethod, i: int)
    requires
        0 <= i <= m.params@.len(),
        distinct_param_names(m),
    ensures
        no_duplicates(param_names_upto(m, i)),
        forall|k: int|
            0 <= k < param_names_upto(m, i).len() ==> exists|j: int|
                0 <= j < i && #[trigger] param_names_upto(m, i)[k] == param_test_name(
                    m,
                    m.params@[j],
                ),
    decreases i,
{
    if i > 0 {
        lemma_param_names(m, i - 1);
        let prev = param_names_upto(m, i - 1);
        let p = m.params@[i - 1];
        let cur = param_names_upto(m, i);
        assert(cur == prev.push(param_test_name(m, p)));
        assert forall|k: int| 0 <= k < prev.len() implies prev[k] != param_test_name(m, p) by {
            let j = choose|j: int|
                0 <= j < i - 1 && #[trigger] prev[k] == param_test_name(m, m.params@[j]);
            assert(m.params@[j].name@ != p.name@);
            if prev[k] == param_test_name(m, p) {
                lemma_cancel_prefix(
                    "test_"@ + m.operation_id@ + "_param_"@,
                    m.params@[j].name@,
                    p.name@,
                );
            }
        }
        assert forall|k: int| #![trigger cur[k]] 0 <= k < cur.len() implies exists|j: int|
            0 <= j < i && #[trigger] cur[k] == param_test_name(m, m.params@[j]) by {
            if k < prev.len() {
                assert(cur[k] == prev[k]);
            } else {
                assert(cur[k] == param_test_name(m, m.params@[i - 1]));
            }
        }
    }
}

/// Within one operation whose responses have distinct statuses and whose
/// parameters have distinct names, no two generated tests share a name.
pub proof fn lemma_test_names_distinct(m: OperationMethod, c: TestGenerationConfig)
    requires
        distinct_statuses(m),
        distinct_param_names(m),
    ensures
        no_duplicates(method_test_names(m, c)),
{
    reveal_strlit("_success_");
    reveal_strlit("_error_");
    reveal_strlit("_param_");
    let n = m.responses@.len() as int;
    let np = m.params@.len() as int;
    lemma_success_names(m, n);
    lemma_error_names(m, n);
    lemma_param_names(m, np);
    let ns = if c.generate_success_tests {
        success_names_upto(m, n)
    } else {
        Seq::<Seq<char>>::empty()
    };
    let ne = if c.generate_error_tests {
        error_names_upto(m, n)
    } else {
        Seq::<Seq<char>>::empty()
    };
    let nq = if c.generate_parameter_tests {
        param_names_upto(m, np)
    } else {
        Seq::<Seq<char>>::empty()
    };
    let names = method_test_names(m, c);
    assert(names == ns + ne + nq);
    let at: int = 5 + m.operation_id@.len() as int + 1;
    // the letter after the operation's name in each part
    assert forall|k: int| 0 <= k < ns.len() implies (#[trigger] ns[k]).len() > at && ns[k][at]
        == 's' by {
        let j = choose|j: int|
            0 <= j < n && #[trigger] success_names_upto(m, n)[k] == success_test_name(
                m,
                m.responses@[j],
            );
        lemma_kind_letter(m, "_success_"@, status_suffix(m.responses@[j].status_code));
    }
    assert forall|k: int| 0 <= k < ne.len() implies (#[trigger] ne[k]).len() > at && ne[k][at]
        == 'e' by {
        let j = choose|j: int|
            0 <= j < n && #[trigger] error_names_upto(m, n)[k] == error_test_name(
                m,
                m.responses@[j],
            );
        lemma_kind_letter(m, "_error_"@, status_suffix(m.responses@[j].status_code));
    }
    assert forall|k: int| 0 <= k < nq.len() implies (#[trigger] nq[k]).len() > at && nq[k][at]
        == 'p' by {
        let j = choose|j: int|
            0 <= j < np && #[trigger] param_names_upto(m, np)[k] == param_test_name(
                m,
                m.params@[j],
            );
        lemma_kind_letter(m, "_param_"@, m.params@[j].name@);
    }
    assert forall|a: int, b: int| 0 <= a < b < names.len() implies #[trigger] names[a]
        != #[trigger] names[b] by {
        let l1 = ns.len() as int;
        let l2 = l1 + ne.len();
        if b < l1 {
            assert(names[a] == ns[a] && names[b] == ns[b]);
        } else if b < l2 {
            assert(names[b] == ne[b - l1]);
            if a < l1 {
                assert(names[a] == ns[a]);
            } else {
                assert(names[a] == ne[a - l1]);
            }
        } else {
            assert(names[b] == nq[b - l2]);
            if a < l1 {
                assert(names[a] == ns[a]);
            } else if a < l2 {
                assert(names[a] == ne[a - l1]);
            } else {
                assert(names[a] == nq[a - l2]);
            }
        }
    }
}




/// The statuses of responses that the API documents as success ones: codes 200 to 299, the range `2XX` and the default.
spec fn in_success_class(s: OperationResponseStatus) -> bool {
    match s {
        OperationResponseStatus::Code(c) => 200 <= c <= 299,
        OperationResponseStatus::Range(r) => r == 2,
        OperationResponseStatus::Default => true,
    }
}

/// The name is the success test name of one of the first `i` responses of the class.
spec fn success_name_of_class(m: OperationMethod, i: int, name: Seq<char>) -> bool {
    exists|j: int|
        0 <= j < i && #[trigger] in_success_class(m.responses@[j].status_code) && name
            =~= success_test_name(m, m.responses@[j])
}

proof fn lemma_success_names_upto(m: OperationMethod, i: int)
    requires
        0 <= i <= m.responses@.len(),
    ensures
        forall|j: int|
            0 <= j < i && #[trigger] in_success_class(m.responses@[j].status_code) ==> exists|k: int|
                0 <= k < success_names_upto(m, i).len() && #[trigger] success_names_upto(m, i)[k]
                    =~= success_test_name(m, m.responses@[j]),
        forall|k: int|
            0 <= k < success_names_upto(m, i).len() ==> success_name_of_class(
                m,
                i,
                #[trigger] success_names_upto(m, i)[k],
            ),
    decreases i,
{
    if i > 0 {
        lemma_success_names_upto(m, i - 1);
        let prev = success_names_upto(m, i - 1);
        let cur = success_names_upto(m, i);
        let r = m.responses@[i - 1];
        assert(is_success_or_default(r.status_code) == in_success_class(r.status_code));
        if is_success_or_default(r.status_code) {
            assert(cur == prev.push(success_test_name(m, r)));
        } else {
            assert(cur =~= prev);
        }
        assert forall|j: int|
            0 <= j < i && #[trigger] in_success_class(m.responses@[j].status_code) implies exists|k: int|
                0 <= k < cur.len() && #[trigger] cur[k] =~= success_test_name(m, m.responses@[j]) by {
            if j < i - 1 {
                let k = choose|k: int|
                    0 <= k < prev.len() && #[trigger] prev[k] =~= success_test_name(m, m.responses@[j]);
                assert(cur[k] == prev[k]);
            } else {
                assert(cur[prev.len() as int] == success_test_name(m, m.responses@[j]));
            }
        }
        assert forall|k: int| 0 <= k < cur.len() implies success_name_of_class(
            m,
            i,
            #[trigger] cur[k],
        ) by {
            if k < prev.len() {
                assert(success_name_of_class(m, i - 1, prev[k]));
                let j = choose|j: int|
                    0 <= j < i - 1 && #[trigger] in_success_class(m.responses@[j].status_code)
                        && prev[k] =~= success_test_name(m, m.responses@[j]);
                assert(cur[k] == prev[k]);
                assert(in_success_class(m.responses@[j].status_code));
            } else {
                assert(cur[k] == success_test_name(m, m.responses@[i - 1]));
                assert(in_success_class(m.responses@[i - 1].status_code));
            }
        }
    } else {
        assert(success_names_upto(m, i).len() == 0);
    }
}

/// Every response whose status is a code from 200 to 299, the range `2XX` or the
/// default gets a success test, named `test_<op>_success_<suffix>`, and every
/// success test is named for such a response.
pub proof fn lemma_success_tests_are_those_of_success_responses(m: OperationMethod, d: bool)
    ensures
        forall|j: int|
            0 <= j < m.responses@.len() && ((m.responses@[j].status_code matches OperationResponseStatus::Code(c) && 200 <= c
                <= 299) || m.responses@[j].status_code == OperationResponseStatus::Range(2)
                || m.responses@[j].status_code == OperationResponseStatus::Default) ==> exists|k: int|
                0 <= k < success_tests(m, d).len() && #[trigger] declared_name(success_tests(m, d)[k], d)
                    == formatted_ident(
                    "test_"@ + m.operation_id@ + "_success_"@ + status_suffix(
                        m.responses@[j].status_code,
                    ),
                ),
        forall|k: int|
            #![trigger success_tests(m, d)[k]]
            0 <= k < success_tests(m, d).len() ==> exists|j: int|
                0 <= j < m.responses@.len() && ((m.responses@[j].status_code matches OperationResponseStatus::Code(c) && 200 <= c
                <= 299) || m.responses@[j].status_code == OperationResponseStatus::Range(2)
                || m.responses@[j].status_code == OperationResponseStatus::Default) && declared_name(
                    success_tests(m, d)[k],
                    d,
                ) == formatted_ident(
                    "test_"@ + m.operation_id@ + "_success_"@ + status_suffix(
                        #[trigger] m.responses@[j].status_code,
                    ),
                ),
{
    let n = m.responses@.len() as int;
    lemma_success_names_upto(m, n);
    lemma_success_declares(m, n, d);
    let tests = success_tests(m, d);
    let names = success_names_upto(m, n);
    assert forall|j: int| 0 <= j < n && ((m.responses@[j].status_code matches OperationResponseStatus::Code(c) && 200 <= c
                <= 299) || m.responses@[j].status_code == OperationResponseStatus::Range(2)
                || m.responses@[j].status_code == OperationResponseStatus::Default) implies exists|k: int|
        0 <= k < tests.len() && #[trigger] declared_name(tests[k], d) == formatted_ident(
            "test_"@ + m.operation_id@ + "_success_"@ + status_suffix(m.responses@[j].status_code),
        ) by {
        assert(in_success_class(m.responses@[j].status_code));
        let k = choose|k: int|
            0 <= k < names.len() && #[trigger] names[k] =~= success_test_name(m, m.responses@[j]);
        assert(declared_name(tests[k], d) == formatted_ident(names[k]));
    }
    assert forall|k: int| #![trigger tests[k]] 0 <= k < tests.len() implies exists|j: int|
        0 <= j < n && ((m.responses@[j].status_code matches OperationResponseStatus::Code(c) && 200 <= c
                <= 299) || m.responses@[j].status_code == OperationResponseStatus::Range(2)
                || m.responses@[j].status_code == OperationResponseStatus::Default) && declared_name(tests[k], d) == formatted_ident(
            "test_"@ + m.operation_id@ + "_success_"@ + status_suffix(
                #[trigger] m.responses@[j].status_code,
            ),
        ) by {
        assert(declared_name(tests[k], d) == formatted_ident(names[k]));
        assert(success_name_of_class(m, n, names[k]));
        let j = choose|j: int|
            0 <= j < n && #[trigger] in_success_class(m.responses@[j].status_code) && names[k]
                =~= success_test_name(m, m.responses@[j]);
        assert((m.responses@[j].status_code matches OperationResponseStatus::Code(c) && 200 <= c
                <= 299) || m.responses@[j].status_code == OperationResponseStatus::Range(2)
                || m.responses@[j].status_code == OperationResponseStatus::Default);
    }
}

/// The statuses of responses that the API documents as error ones: codes 400 to 599 and the ranges `4XX` and `5XX`.
spec fn in_error_class(s: OperationResponseStatus) -> bool {
    match s {
        OperationResponseStatus::Code(c) => 400 <= c <= 599,
        OperationResponseStatus::Range(r) => r == 4 || r == 5,
        OperationResponseStatus::Default => false,
    }
}

/// The name is the error test name of one of the first `i` responses of the class.
spec fn error_name_of_class(m: OperationMethod, i: int, name: Seq<char>) -> bool {
    exists|j: int|
        0 <= j < i && #[trigger] in_error_class(m.responses@[j].status_code) && name
            =~= error_test_name(m, m.responses@[j])
}

proof fn lemma_error_names_upto(m: OperationMethod, i: int)
    requires
        0 <= i <= m.responses@.len(),
    ensures
        forall|j: int|
            0 <= j < i && #[trigger] in_error_class(m.responses@[j].status_code) ==> exists|k: int|
                0 <= k < error_names_upto(m, i).len() && #[trigger] error_names_upto(m, i)[k]
                    =~= error_test_name(m, m.responses@[j]),
        forall|k: int|
            0 <= k < error_names_upto(m, i).len() ==> error_name_of_class(
                m,
                i,
                #[trigger] error_names_upto(m, i)[k],
            ),
    decreases i,
{
    if i > 0 {
        lemma_error_names_upto(m, i - 1);
        let prev = error_names_upto(m, i - 1);
        let cur = error_names_upto(m, i);
        let r = m.responses@[i - 1];
        assert(gets_error_test(r.status_code) == in_error_class(r.status_code));
        if gets_error_test(r.status_code) {
            assert(cur == prev.push(error_test_name(m, r)));
        } else {
            assert(cur =~= prev);
        }
        assert forall|j: int|
            0 <= j < i && #[trigger] in_error_class(m.responses@[j].status_code) implies exists|k: int|
                0 <= k < cur.len() && #[trigger] cur[k] =~= error_test_name(m, m.responses@[j]) by {
            if j < i - 1 {
                let k = choose|k: int|
                    0 <= k < prev.len() && #[trigger] prev[k] =~= error_test_name(m, m.responses@[j]);
                assert(cur[k] == prev[k]);
            } else {
                assert(cur[prev.len() as int] == error_test_name(m, m.responses@[j]));
            }
        }
        assert forall|k: int| 0 <= k < cur.len() implies error_name_of_class(
            m,
            i,
            #[trigger] cur[k],
        ) by {
            if k < prev.len() {
                assert(error_name_of_class(m, i - 1, prev[k]));
                let j = choose|j: int|
                    0 <= j < i - 1 && #[trigger] in_error_class(m.responses@[j].status_code)
                        && prev[k] =~= error_test_name(m, m.responses@[j]);
                assert(cur[k] == prev[k]);
                assert(in_error_class(m.responses@[j].status_code));
            } else {
                assert(cur[k] == error_test_name(m, m.responses@[i - 1]));
                assert(in_error_class(m.responses@[i - 1].status_code));
            }
        }
    } else {
        assert(error_names_upto(m, i).len() == 0);
    }
}

/// Every response whose status is a code from 400 to 599 or one of the ranges
/// `4XX` and `5XX` gets an error test, named `test_<op>_error_<suffix>`, and
/// every error test is named for such a response: the default response and
/// the success responses get none.
pub proof fn lemma_error_tests_are_those_of_error_responses(m: OperationMethod, d: bool)
    ensures
        forall|j: int|
            0 <= j < m.responses@.len() && ((m.responses@[j].status_code matches OperationResponseStatus::Code(c) && 400 <= c
                <= 599) || m.responses@[j].status_code == OperationResponseStatus::Range(4)
                || m.responses@[j].status_code == OperationResponseStatus::Range(5)) ==> exists|k: int|
                0 <= k < error_tests(m, d).len() && #[trigger] declared_name(error_tests(m, d)[k], d)
                    == formatted_ident(
                    "test_"@ + m.operation_id@ + "_error_"@ + status_suffix(
                        m.responses@[j].status_code,
                    ),
                ),
        forall|k: int|
            #![trigger error_tests(m, d)[k]]
            0 <= k < error_tests(m, d).len() ==> exists|j: int|
                0 <= j < m.responses@.len() && ((m.responses@[j].status_code matches OperationResponseStatus::Code(c) && 400 <= c
                <= 599) || m.responses@[j].status_code == OperationResponseStatus::Range(4)
                || m.responses@[j].status_code == OperationResponseStatus::Range(5)) && declared_name(
                    error_tests(m, d)[k],
                    d,
                ) == formatted_ident(
                    "test_"@ + m.operation_id@ + "_error_"@ + status_suffix(
                        #[trigger] m.responses@[j].status_code,
                    ),
                ),
{
    let n = m.responses@.len() as int;
    lemma_error_names_upto(m, n);
    lemma_error_declares(m, n, d);
    let tests = error_tests(m, d);
    let names = error_names_upto(m, n);
    assert forall|j: int| 0 <= j < n && ((m.responses@[j].status_code matches OperationResponseStatus::Code(c) && 400 <= c
                <= 599) || m.responses@[j].status_code == OperationResponseStatus::Range(4)
                || m.responses@[j].status_code == OperationResponseStatus::Range(5)) implies exists|k: int|
        0 <= k < tests.len() && #[trigger] declared_name(tests[k], d) == formatted_ident(
            "test_"@ + m.operation_id@ + "_error_"@ + status_suffix(m.responses@[j].status_code),
        ) by {
        assert(in_error_class(m.responses@[j].status_code));
        let k = choose|k: int|
            0 <= k < names.len() && #[trigger] names[k] =~= error_test_name(m, m.responses@[j]);
        assert(declared_name(tests[k], d) == formatted_ident(names[k]));
    }
    assert forall|k: int| #![trigger tests[k]] 0 <= k < tests.len() implies exists|j: int|
        0 <= j < n && ((m.responses@[j].status_code matches OperationResponseStatus::Code(c) && 400 <= c
                <= 599) || m.responses@[j].status_code == OperationResponseStatus::Range(4)
                || m.responses@[j].status_code == OperationResponseStatus::Range(5)) && declared_name(tests[k], d) == formatted_ident(
            "test_"@ + m.operation_id@ + "_error_"@ + status_suffix(
                #[trigger] m.responses@[j].status_code,
            ),
        ) by {
        assert(declared_name(tests[k], d) == formatted_ident(names[k]));
        assert(error_name_of_class(m, n, names[k]));
        let j = choose|j: int|
            0 <= j < n && #[trigger] in_error_class(m.responses@[j].status_code) && names[k]
                =~= error_test_name(m, m.responses@[j]);
        assert((m.responses@[j].status_code matches OperationResponseStatus::Code(c) && 400 <= c
                <= 599) || m.responses@[j].status_code == OperationResponseStatus::Range(4)
                || m.responses@[j].status_code == OperationResponseStatus::Range(5));
    }
}


/// The mock answer of a response names the `httpmock` method of its status
/// class: `bad_request` for code 400 and the range `4XX`,
/// `internal_server_error` for code 500 and the range `5XX`, `created` for
/// code 201, `status(code)` with the code itself for any other code of 400 or
/// more, and `ok` for every other status.
pub proof fn lemma_mock_answer_follows_status(r: OperationResponse)
    ensures
        mock_response(r).len() > 4,
        mock_response(r)[0] == ident("then"@),
        mock_response(r)[1] == punct('.'),
        mock_response(r)[2] == ident("bad_request"@) <==> (r.status_code
            == OperationResponseStatus::Code(400) || r.status_code == OperationResponseStatus::Range(
            4,
        )),
        mock_response(r)[2] == ident("internal_server_error"@) <==> (r.status_code
            == OperationResponseStatus::Code(500) || r.status_code == OperationResponseStatus::Range(
            5,
        )),
        mock_response(r)[2] == ident("created"@) <==> r.status_code == OperationResponseStatus::Code(
            201,
        ),
        mock_response(r)[2] == ident("status"@) <==> (r.status_code matches
            OperationResponseStatus::Code(c) && c >= 400 && c != 400 && c != 500),
        mock_response(r)[2] == ident("status"@) ==> r.status_code == OperationResponseStatus::Code(
            mock_response(r)[4]->U16_0,
        ) && mock_response(r)[4] is U16,
        mock_response(r)[2] == ident("ok"@) <==> ((r.status_code matches
            OperationResponseStatus::Code(c) && c < 400 && c != 201) || (r.status_code matches
            OperationResponseStatus::Range(x) && x != 4 && x != 5) || r.status_code
            == OperationResponseStatus::Default),
{
    reveal_strlit("ok");
    reveal_strlit("created");
    reveal_strlit("bad_request");
    reveal_strlit("internal_server_error");
    reveal_strlit("status");
    assert("ok"@.len() == 2 && "created"@.len() == 7 && "status"@.len() == 6);
    assert("bad_request"@.len() == 11 && "internal_server_error"@.len() == 21);
    let sample = sample_response(r.typ);
    match then_method(r.status_code) {
        Some(name) => {
            let head = seq![ident("then"@), punct('.'), ident(name)];
            assert(mock_response(r) =~= head + (ref_arg(sample) + seq![punct(';')]));
            assert(mock_response(r)[2] == ident(name));
            assert(name == "bad_request"@ <==> (r.status_code == OperationResponseStatus::Code(400)
                || r.status_code == OperationResponseStatus::Range(4)));
            assert(name == "internal_server_error"@ <==> (r.status_code
                == OperationResponseStatus::Code(500) || r.status_code
                == OperationResponseStatus::Range(5)));
        },
        None => {
            let head = seq![ident("then"@), punct('.'), ident("status"@)] + group(
                Delim::Paren,
                seq![TokV::U16(status_code_of(r.status_code))],
            );
            assert(head.len() == 6);
            assert(mock_response(r) =~= head + (seq![punct('.'), ident("json_body_obj"@)] + ref_arg(
                sample,
            ) + seq![punct(';')]));
            assert(mock_response(r)[4] == TokV::U16(status_code_of(r.status_code)));
        },
    }
}

} // verus!
