use progenitor_impl::test_gen::{
    BodyContentType, Generator, OperationMethod, OperationParameter, OperationParameterKind,
    OperationParameterType, OperationResponse, OperationResponseKind, OperationResponseStatus,
    ResponseType, TestGenError, TestGenerationConfig,
};

fn tokens(s: &str) -> proc_macro2::TokenStream {
    s.parse().unwrap()
}

/// The text of tokens without spaces, so that texts written by hand compare
/// with generated ones whatever the spacing of punctuation.
fn squash(s: &str) -> String {
    s.chars().filter(|c| !c.is_whitespace()).collect()
}

fn response(status: OperationResponseStatus, typ: OperationResponseKind) -> OperationResponse {
    OperationResponse { status_code: status, typ }
}

fn named(s: &str) -> OperationResponseKind {
    OperationResponseKind::Type(ResponseType::Named(tokens(s)))
}

fn body_param(type_path: &str) -> OperationParameter {
    OperationParameter {
        api_name: "body".to_string(),
        name: "body".to_string(),
        description: None,
        typ: OperationParameterType::Type(tokens(type_path)),
        kind: OperationParameterKind::Body(BodyContentType::Json),
    }
}

/// The operations of the users API: listing users, and creating one.
fn users_api() -> Vec<OperationMethod> {
    vec![
        OperationMethod {
            operation_id: "list_users".to_string(),
            summary: Some("List all users".to_string()),
            params: vec![],
            responses: vec![response(
                OperationResponseStatus::Code(200),
                OperationResponseKind::Type(ResponseType::Vec(tokens("types::User"))),
            )],
        },
        OperationMethod {
            operation_id: "create_user".to_string(),
            summary: Some("Create a new user".to_string()),
            params: vec![body_param("types::CreateUserRequest")],
            responses: vec![
                response(OperationResponseStatus::Code(201), named("types::User")),
                response(OperationResponseStatus::Code(400), named("types::Error")),
            ],
        },
    ]
}

fn config(success: bool, error: bool, params: bool, name: &str) -> TestGenerationConfig {
    TestGenerationConfig {
        generate_success_tests: success,
        generate_error_tests: error,
        generate_parameter_tests: params,
        generate_integration_tests: false,
        test_module_name: name.to_string(),
        include_documentation: true,
    }
}

#[test]
fn test_generate_tests_basic() {
    let methods = users_api();
    let mut generator = Generator::default();
    let test_config = config(true, true, true, "generated_tests");

    let result = generator.generate_tests(&methods, "crate", &test_config);
    assert!(result.is_ok(), "Test generation should succeed");

    let test_tokens = result.unwrap();
    let test_code = test_tokens.to_string();

    assert!(test_code.contains("mod generated_tests"), "Should contain test module");
    assert!(
        test_code.contains("test_list_users_success"),
        "Should contain success test for list_users"
    );
    assert!(
        test_code.contains("test_create_user_success"),
        "Should contain success test for create_user"
    );
    assert!(
        test_code.contains("test_create_user_error"),
        "Should contain error test for create_user"
    );
    assert!(test_code.contains("MockServer :: start ()"), "Should use MockServer");
    assert!(test_code.contains("async fn"), "Should generate async test functions");
    assert!(test_code.contains("# [tokio :: test]"), "Should use tokio::test attribute");

    println!("Generated test code preview:");
    println!("{}", &test_code[..std::cmp::min(1000, test_code.len())]);
}

fn test_operation_api() -> Vec<OperationMethod> {
    vec![OperationMethod {
        operation_id: "test_operation".to_string(),
        summary: None,
        params: vec![],
        responses: vec![
            response(OperationResponseStatus::Code(200), named("::std::string::String")),
            response(OperationResponseStatus::Code(400), named("::std::string::String")),
        ],
    }]
}

#[test]
fn test_generate_tests_config_variations() {
    let methods = test_operation_api();
    let mut generator = Generator::default();

    let success_only_config = config(true, false, false, "success_tests");
    let result = generator.generate_tests(&methods, "crate", &success_only_config);
    assert!(result.is_ok(), "Success-only test generation should succeed");
    let test_code = result.unwrap().to_string();
    assert!(test_code.contains("test_test_operation_success"), "Should contain success test");
    assert!(!test_code.contains("test_test_operation_error"), "Should not contain error test");

    let error_only_config = config(false, true, false, "error_tests");
    let result = generator.generate_tests(&methods, "crate", &error_only_config);
    assert!(result.is_ok(), "Error-only test generation should succeed");
    let test_code = result.unwrap().to_string();
    assert!(test_code.contains("test_test_operation_error"), "Should contain error test");
    assert!(!test_code.contains("test_test_operation_success"), "Should not contain success test");
}

#[test]
fn test_sample_value_generation() {
    let generator = Generator::default();
    let string_param = OperationParameter {
        api_name: "test_string".to_string(),
        name: "test_string".to_string(),
        typ: OperationParameterType::RawBody,
        kind: OperationParameterKind::Body(BodyContentType::Json),
        description: None,
    };
    let result = generator.generate_sample_value_internal(&string_param);
    let sample_code = result.to_string();
    assert!(sample_code.contains("test"), "Should generate test data");
}

/// The tests that the users API gets, in the form of the generated module of
/// the client that shipped with them.
#[test]
fn generated_module_matches_shipped_tests() {
    let mut methods = users_api();
    methods[0].summary = Some("List users".to_string());
    methods[0].responses.push(response(OperationResponseStatus::Code(500), named("types::Error")));
    methods[1].summary = Some("Create user".to_string());
    let mut generator = Generator::default();
    let code = generator
        .generate_tests(&methods, "crate", &config(true, true, true, "generated_tests"))
        .unwrap();
    let expected = r#"
        #[cfg(test)]
        pub mod generated_tests {
            use super::*;
            use crate::httpmock::{MockServerExt, operations};
            use ::httpmock::prelude::*;
            use tokio;
            #[tokio::test]
            #[doc = "Test successful List users with 200 response"]
            async fn test_list_users_success_200() {
                let server = MockServer::start();
                let client = Client::new(&server.base_url());
                let _mock = server.list_users(|when, then| {
                    when;
                    then.ok(&Vec::<types::User>::default());
                });
                let result = client.list_users().await;
                assert!(result.is_ok());
                let response = result.unwrap();
            }
            #[tokio::test]
            #[doc = "Test error case for List users with 500 response"]
            async fn test_list_users_error_500() {
                let server = MockServer::start();
                let client = Client::new(&server.base_url());
                let _mock = server.list_users(|when, then| {
                    when;
                    then.internal_server_error(&types::Error::default());
                });
                let result = client.list_users().await;
                assert!(result.is_err());
            }
            #[tokio::test]
            #[doc = "Test successful Create user with 201 response"]
            async fn test_create_user_success_201() {
                let server = MockServer::start();
                let client = Client::new(&server.base_url());
                let _mock = server.create_user(|when, then| {
                    when.body(&types::CreateUserRequest::default());
                    then.created(&types::User::default());
                });
                let result = client.create_user(&types::CreateUserRequest::default()).await;
                assert!(result.is_ok());
                let response = result.unwrap();
            }
            #[tokio::test]
            #[doc = "Test error case for Create user with 400 response"]
            async fn test_create_user_error_400() {
                let server = MockServer::start();
                let client = Client::new(&server.base_url());
                let _mock = server.create_user(|when, then| {
                    when.body(&types::CreateUserRequest::default());
                    then.bad_request(&types::Error::default());
                });
                let result = client.create_user(&types::CreateUserRequest::default()).await;
                assert!(result.is_err());
            }
            #[tokio::test]
            #[doc = "Test create_user with parameter body"]
            async fn test_create_user_param_body() {
                let server = MockServer::start();
                let client = Client::new(&server.base_url());
                let _mock = server.create_user(|when, then| {
                    when.body(&types::CreateUserRequest::default());
                    then.created(&types::User::default());
                });
                let result = client.create_user(&types::CreateUserRequest::default()).await;
                assert!(result.is_ok());
            }
        }
    "#;
    assert_eq!(squash(&code.to_string()), squash(expected));
}

#[test]
fn default_config_generates_all_but_integration_tests() {
    let c = TestGenerationConfig::default();
    assert!(c.generate_success_tests);
    assert!(c.generate_error_tests);
    assert!(c.generate_parameter_tests);
    assert!(!c.generate_integration_tests);
    assert_eq!(c.test_module_name, "tests");
    assert!(c.include_documentation);
}

#[test]
fn status_suffixes() {
    let g = Generator::new();
    assert_eq!(g.response_status_suffix_internal(&OperationResponseStatus::Code(404)), "404");
    assert_eq!(g.response_status_suffix_internal(&OperationResponseStatus::Code(0)), "0");
    assert_eq!(g.response_status_suffix_internal(&OperationResponseStatus::Code(65535)), "65535");
    assert_eq!(g.response_status_suffix_internal(&OperationResponseStatus::Range(5)), "5xx");
    assert_eq!(g.response_status_suffix_internal(&OperationResponseStatus::Default), "default");
}

#[test]
fn other_error_codes_use_the_status_method() {
    let methods = vec![OperationMethod {
        operation_id: "get_thing".to_string(),
        summary: None,
        params: vec![],
        responses: vec![
            response(OperationResponseStatus::Code(404), OperationResponseKind::Raw),
            response(OperationResponseStatus::Range(5), OperationResponseKind::Empty),
            response(OperationResponseStatus::Default, OperationResponseKind::Upgrade),
        ],
    }];
    let code = Generator::new()
        .generate_tests(&methods, "::my_sdk", &config(true, true, false, "t"))
        .unwrap()
        .to_string();
    let expected_404 = tokens(
        r#"then.status(404u16).json_body_obj(&serde_json::json!({"message": "success"}));"#,
    )
    .to_string();
    let code = squash(&code);
    assert!(code.contains(&squash(&expected_404)));
    assert!(code.contains(&squash("then.internal_server_error(&());")));
    assert!(code.contains("test_get_thing_error_404"));
    assert!(code.contains("test_get_thing_error_5xx"));
    // the default response gets a success test and no error test
    assert!(code.contains("test_get_thing_success_default"));
    assert!(!code.contains("test_get_thing_error_default"));
    assert!(code.contains(&squash("\"Test error case for operation with 404 response\"")));
    assert!(code.contains(&squash("use ::my_sdk::httpmock::{MockServerExt, operations};")));
}

#[test]
fn raw_and_multiple_samples() {
    let methods = vec![OperationMethod {
        operation_id: "upload".to_string(),
        summary: Some("Upload".to_string()),
        params: vec![OperationParameter {
            api_name: "body".to_string(),
            name: "body".to_string(),
            description: None,
            typ: OperationParameterType::RawBody,
            kind: OperationParameterKind::Body(BodyContentType::Text("text/plain".to_string())),
        }],
        responses: vec![response(
            OperationResponseStatus::Code(200),
            OperationResponseKind::Multiple { enum_name: "UploadResponse".to_string() },
        )],
    }];
    let code = Generator::new()
        .generate_tests(&methods, "crate", &config(true, false, false, "r#match"))
        .unwrap()
        .to_string();
    assert!(code.contains("pub mod r#match"));
    let code = squash(&code);
    assert!(code.contains(&squash("then.ok(&UploadResponse::default());")));
    assert!(code.contains(&squash(r#"when.body(&"test body content");"#)));
    assert!(code.contains(&squash("let _mock = server.upload(")));
    assert!(code.contains(&squash("let result = client.upload(&\"test body content\").await;")));
}

#[test]
fn invalid_names_are_refused() {
    let mut generator = Generator::new();
    let methods = test_operation_api();
    let r = generator.generate_tests(&methods, "crate", &config(true, true, true, "bad name"));
    assert_eq!(r.unwrap_err(), TestGenError::InvalidIdentifier);
    let r = generator.generate_tests(&methods, "not a path", &config(true, true, true, "t"));
    assert_eq!(r.unwrap_err(), TestGenError::InvalidCratePath);
    let mut bad = test_operation_api();
    bad[0].operation_id = "has-dash".to_string();
    let r = generator.generate_tests(&bad, "crate", &config(true, false, false, "t"));
    assert_eq!(r.unwrap_err(), TestGenError::InvalidIdentifier);
    // a raw operation name cannot be part of a test name
    let mut raw = test_operation_api();
    raw[0].operation_id = "r#type".to_string();
    let r = generator.generate_tests(&raw, "crate", &config(true, false, false, "t"));
    assert_eq!(r.unwrap_err(), TestGenError::InvalidIdentifier);
    let r = generator.generate_tests(&methods, "crate", &config(true, false, false, "r#self"));
    assert_eq!(r.unwrap_err(), TestGenError::InvalidIdentifier);
    // with no test asked for, the operation's name is never used
    let r = generator.generate_tests(&bad, "crate", &config(false, false, false, "t"));
    assert!(r.is_ok());
}

#[test]
fn no_operations_give_an_empty_module() {
    let code = Generator::new()
        .generate_tests(&vec![], "crate", &config(true, true, true, "tests"))
        .unwrap();
    let expected = tokens(
        "#[cfg(test)] pub mod tests { use super::*; use crate::httpmock::{MockServerExt, operations}; use ::httpmock::prelude::*; use tokio; }",
    );
    assert_eq!(squash(&code.to_string()), squash(&expected.to_string()));
    assert!(code.to_string().starts_with("# [cfg (test)] pub mod tests {"));
}

/// The names of the test functions that a generated module declares.
fn declared_functions(code: &str) -> Vec<String> {
    let words: Vec<&str> = code.split_whitespace().collect();
    let mut names = Vec::new();
    for i in 1..words.len() {
        if words[i - 1] == "fn" {
            names.push(words[i].to_string());
        }
    }
    names
}

#[test]
fn one_test_per_response_and_parameter() {
    let mut methods = users_api();
    methods[1].params.push(OperationParameter {
        api_name: "limit".to_string(),
        name: "limit".to_string(),
        description: None,
        typ: OperationParameterType::Type(tokens("u32")),
        kind: OperationParameterKind::Query(false),
    });
    methods[1].responses.push(response(OperationResponseStatus::Range(5), named("types::Error")));
    let code = Generator::new()
        .generate_tests(&methods, "crate", &config(true, true, true, "t"))
        .unwrap()
        .to_string();
    let names = declared_functions(&code);
    // list_users: one success; create_user: one success, two errors, two parameters
    assert_eq!(names.len(), 6);
    let mut unique = names.clone();
    unique.sort();
    unique.dedup();
    assert_eq!(unique.len(), names.len());
    assert_eq!(
        names,
        vec![
            "test_list_users_success_200",
            "test_create_user_success_201",
            "test_create_user_error_400",
            "test_create_user_error_5xx",
            "test_create_user_param_body",
            "test_create_user_param_limit",
        ]
    );
    let code = Generator::new()
        .generate_tests(&methods, "crate", &config(false, false, true, "t"))
        .unwrap()
        .to_string();
    assert_eq!(declared_functions(&code).len(), 2);
}

fn query_param(name: &str, type_path: &str, required: bool) -> OperationParameter {
    OperationParameter {
        api_name: name.to_string(),
        name: name.to_string(),
        description: None,
        typ: OperationParameterType::Type(tokens(type_path)),
        kind: OperationParameterKind::Query(required),
    }
}

#[test]
fn documentation_flag_controls_doc_attributes() {
    let methods = users_api();
    let mut undocumented = config(true, true, true, "t");
    undocumented.include_documentation = false;
    let code = Generator::new().generate_tests(&methods, "crate", &undocumented).unwrap().to_string();
    assert!(!code.contains("# [doc"));
    assert!(!code.contains("Test successful"));
    assert_eq!(declared_functions(&code).len(), 4);
    let expected = r#"
        #[tokio::test]
        async fn test_list_users_success_200() {
            let server = MockServer::start();
            let client = Client::new(&server.base_url());
            let _mock = server.list_users(|when, then| {
                when;
                then.ok(&Vec::<types::User>::default());
            });
            let result = client.list_users().await;
            assert!(result.is_ok());
            let response = result.unwrap();
        }
    "#;
    assert!(squash(&code).contains(&squash(expected)));
    let documented = config(true, true, true, "t");
    let code = Generator::new().generate_tests(&methods, "crate", &documented).unwrap().to_string();
    assert_eq!(code.matches("# [doc").count(), 4);
}

#[test]
fn required_path_parameter_is_passed() {
    let methods = vec![OperationMethod {
        operation_id: "get_user".to_string(),
        summary: Some("Get a user".to_string()),
        params: vec![OperationParameter {
            api_name: "id".to_string(),
            name: "id".to_string(),
            description: None,
            typ: OperationParameterType::Type(tokens("u64")),
            kind: OperationParameterKind::Path,
        }],
        responses: vec![
            response(OperationResponseStatus::Code(200), named("types::User")),
            response(OperationResponseStatus::Code(404), named("types::Error")),
        ],
    }];
    let code = Generator::new()
        .generate_tests(&methods, "crate", &config(true, true, true, "t"))
        .unwrap()
        .to_string();
    let code = squash(&code);
    assert!(!code.contains(&squash("client.get_user().await")));
    // the success test, the error test and the parameter test all pass the id
    assert_eq!(code.matches(&squash("let result = client.get_user(&u64::default()).await;")).count(), 3);
    assert!(code.contains(&squash("then.status(404u16).json_body_obj(&types::Error::default());")));
}

#[test]
fn optional_parameter_is_passed_only_in_its_own_test() {
    let methods = vec![OperationMethod {
        operation_id: "search".to_string(),
        summary: None,
        params: vec![query_param("q", "String", true), query_param("limit", "u32", false)],
        responses: vec![response(OperationResponseStatus::Code(200), named("types::User"))],
    }];
    let code = Generator::new()
        .generate_tests(&methods, "crate", &config(true, false, true, "t"))
        .unwrap()
        .to_string();
    let code = squash(&code);
    let without = squash("let result = client.search(&String::default(), None).await;");
    let with = squash("let result = client.search(&String::default(), Some(&u32::default())).await;");
    // the success test and the test of `q` leave `limit` out; the test of `limit` passes it
    assert_eq!(code.matches(&without).count(), 2);
    assert_eq!(code.matches(&with).count(), 1);
    let expected = r#"
        async fn test_search_param_limit() {
            let server = MockServer::start();
            let client = Client::new(&server.base_url());
            let _mock = server.search(|when, then| {
                when;
                then.ok(&types::User::default());
            });
            let result = client.search(&String::default(), Some(&u32::default())).await;
            assert!(result.is_ok());
        }
    "#;
    assert!(code.contains(&squash(expected)));
}

#[test]
fn parameter_test_without_success_response_expects_an_error() {
    let methods = vec![OperationMethod {
        operation_id: "fail".to_string(),
        summary: None,
        params: vec![query_param("x", "i32", false)],
        responses: vec![response(OperationResponseStatus::Code(400), named("types::Error"))],
    }];
    let code = Generator::new()
        .generate_tests(&methods, "crate", &config(false, false, true, "t"))
        .unwrap()
        .to_string();
    let expected = r#"
        async fn test_fail_param_x() {
            let server = MockServer::start();
            let client = Client::new(&server.base_url());
            let result = client.fail(Some(&i32::default())).await;
            assert!(result.is_err());
        }
    "#;
    assert!(squash(&code).contains(&squash(expected)));
}

#[test]
fn integration_test_combines_the_operations() {
    let methods = users_api();
    let mut c = config(false, false, false, "t");
    c.generate_integration_tests = true;
    let code = Generator::new().generate_tests(&methods, "crate", &c).unwrap().to_string();
    assert_eq!(declared_functions(&code), vec!["test_integration_workflow"]);
    let expected = r#"
        #[tokio::test]
        #[doc = "Test a workflow that combines the operations in order"]
        async fn test_integration_workflow() {
            let server = MockServer::start();
            let client = Client::new(&server.base_url());
            let _mock = server.list_users(|when, then| {
                when;
                then.ok(&Vec::<types::User>::default());
            });
            let result = client.list_users().await;
            assert!(result.is_ok());
            let _mock = server.create_user(|when, then| {
                when.body(&types::CreateUserRequest::default());
                then.created(&types::User::default());
            });
            let result = client.create_user(&types::CreateUserRequest::default()).await;
            assert!(result.is_ok());
        }
    "#;
    assert!(squash(&code).contains(&squash(expected)));
    // after the tests of every operation
    let mut all = config(true, true, true, "t");
    all.generate_integration_tests = true;
    let code = Generator::new().generate_tests(&methods, "crate", &all).unwrap().to_string();
    let names = declared_functions(&code);
    assert_eq!(names.len(), 5);
    assert_eq!(names[4], "test_integration_workflow");
}

#[test]
fn no_integration_test_without_two_operations_or_the_flag() {
    let methods = users_api();
    let code = Generator::new()
        .generate_tests(&methods, "crate", &config(true, true, true, "t"))
        .unwrap()
        .to_string();
    assert!(!code.contains("test_integration_workflow"));
    let mut c = config(false, false, false, "t");
    c.generate_integration_tests = true;
    let one = vec![users_api().remove(0)];
    let code = Generator::new().generate_tests(&one, "crate", &c).unwrap().to_string();
    assert!(declared_functions(&code).is_empty());
    // an operation with no success response takes no part in the workflow
    let mut methods = users_api();
    methods.push(test_operation_api().remove(0));
    methods[2].responses.remove(0);
    let code = Generator::new().generate_tests(&methods, "crate", &c).unwrap().to_string();
    assert!(!code.contains("test_operation"));
    assert_eq!(declared_functions(&code).len(), 1);
}

#[test]
fn integration_step_names_are_checked() {
    let mut methods = users_api();
    methods[1].operation_id = "bad-name".to_string();
    let mut c = config(false, false, false, "t");
    assert!(Generator::new().generate_tests(&methods, "crate", &c).is_ok());
    c.generate_integration_tests = true;
    let r = Generator::new().generate_tests(&methods, "crate", &c);
    assert_eq!(r.unwrap_err(), TestGenError::InvalidIdentifier);
}

#[test]
fn kinds_of_tests_never_share_names() {
    // a parameter named like a status suffix, and repeated statuses
    let methods = vec![OperationMethod {
        operation_id: "op".to_string(),
        summary: None,
        params: vec![query_param("success_200", "u8", true)],
        responses: vec![
            response(OperationResponseStatus::Code(200), named("u8")),
            response(OperationResponseStatus::Code(404), named("u8")),
            response(OperationResponseStatus::Code(404), named("u8")),
        ],
    }];
    let mut c = config(true, true, true, "t");
    c.generate_integration_tests = true;
    let code = Generator::new().generate_tests(&methods, "crate", &c).unwrap().to_string();
    let names = declared_functions(&code);
    assert_eq!(
        names,
        vec!["test_op_success_200", "test_op_error_404", "test_op_error_404", "test_op_param_success_200"]
    );
}
