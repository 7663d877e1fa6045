use progenitor_impl::client::{
    api_version, create_user_disposition, list_users_disposition, users_url, ResponseDisposition,
};
use progenitor_impl::types::error::ConversionError;
use progenitor_impl::types::{
    users_to_json_value, CreateUserError, CreateUserRequest, Error, ListUsersError, User,
};

fn user(id: &str, name: &str) -> User {
    User { id: id.to_string(), name: name.to_string() }
}

#[test]
fn urls_and_versions() {
    assert_eq!(users_url("http://127.0.0.1:8080"), "http://127.0.0.1:8080/users");
    assert_eq!(users_url(""), "/users");
    assert_eq!(api_version(), "1.0.0");
}

#[test]
fn dispositions() {
    assert_eq!(list_users_disposition(200), ResponseDisposition::Success);
    assert_eq!(list_users_disposition(500), ResponseDisposition::ErrorResponse);
    assert_eq!(list_users_disposition(201), ResponseDisposition::Unexpected);
    assert_eq!(create_user_disposition(201), ResponseDisposition::Success);
    assert_eq!(create_user_disposition(400), ResponseDisposition::ErrorResponse);
    assert_eq!(create_user_disposition(200), ResponseDisposition::Unexpected);
}

#[test]
fn json_of_types() {
    assert_eq!(
        user("7", "ann").to_json_value(),
        serde_json::from_str::<serde_json::Value>(r#"{"id":"7","name":"ann"}"#).unwrap()
    );
    assert_eq!(
        Error { message: "boom".to_string() }.to_json_value().to_string(),
        r#"{"message":"boom"}"#
    );
    assert_eq!(
        CreateUserRequest { name: "x\"y".to_string() }.to_json_value().to_string(),
        r#"{"name":"x\"y"}"#
    );
    assert_eq!(
        users_to_json_value(&vec![user("1", "a"), user("2", "b")]).to_string(),
        r#"[{"id":"1","name":"a"},{"id":"2","name":"b"}]"#
    );
    assert_eq!(users_to_json_value(&vec![]).to_string(), "[]");
}

#[test]
fn defaults_are_empty() {
    assert_eq!(User::default(), user("", ""));
    assert_eq!(Error::default().message, "");
    assert_eq!(CreateUserRequest::default().name, "");
}

#[test]
fn list_users_errors_from_status() {
    let e = Error { message: "down".to_string() };
    match ListUsersError::from_status(500, "{\"message\":\"down\"}", Some(e.clone())) {
        Ok(ListUsersError::Status500(x)) => assert_eq!(x, e),
        other => panic!("{:?}", other),
    }
    assert_eq!(
        ListUsersError::from_status(500, "garbage", None).unwrap_err(),
        "Unable to parse error response as JSON"
    );
    match ListUsersError::from_status(418, "{\"a\": [1, 2]}", None) {
        Ok(ListUsersError::UnknownValue(v)) => assert_eq!(v["a"][1], 2),
        other => panic!("{:?}", other),
    }
    assert_eq!(
        ListUsersError::from_status(418, "{oops", None).unwrap_err(),
        "Unable to parse as JSON"
    );
    assert!(ListUsersError::documented_status(500));
    assert!(!ListUsersError::documented_status(400));
}

#[test]
fn create_user_errors_from_status() {
    let e = Error { message: "bad".to_string() };
    match CreateUserError::from_status(400, "{}", Some(e.clone())) {
        Ok(CreateUserError::Status400(x)) => assert_eq!(x, e),
        other => panic!("{:?}", other),
    }
    assert_eq!(
        CreateUserError::from_status(400, "{}", None).unwrap_err(),
        "Unable to parse error response as JSON"
    );
    match CreateUserError::from_status(500, "null", None) {
        Ok(CreateUserError::UnknownValue(v)) => assert!(v.is_null()),
        other => panic!("{:?}", other),
    }
    assert!(CreateUserError::documented_status(400));
    assert!(!CreateUserError::documented_status(500));
}

#[test]
fn conversion_errors_keep_their_message() {
    assert_eq!(ConversionError::new("no").message(), "no");
    assert_eq!(ConversionError::from("why".to_string()).message(), "why");
}

#[test]
fn copies_from_references() {
    let u = user("3", "c");
    assert_eq!(User::from(&u), u);
    let e = Error { message: "m".to_string() };
    assert_eq!(Error::from(&e), e);
    let r = CreateUserRequest { name: "n".to_string() };
    assert_eq!(CreateUserRequest::from(&r), r);
}

#[test]
fn errors_from_status_lines() {
    let e = Error { message: "down".to_string() };
    match ListUsersError::from_line("500:{\"message\":\"down\"}", Some(e.clone())) {
        Ok(ListUsersError::Status500(x)) => assert_eq!(x, e),
        other => panic!("{:?}", other),
    }
    match ListUsersError::from_line("404:[1]", None) {
        Ok(ListUsersError::UnknownValue(v)) => assert_eq!(v[0], 1),
        other => panic!("{:?}", other),
    }
    assert_eq!(
        ListUsersError::from_line("no colon here", None).unwrap_err(),
        "Unable to split status code and value"
    );
    assert!(ListUsersError::from_line("abc:{}", None).is_err());
    let e = Error { message: "bad".to_string() };
    match CreateUserError::from_line("400:{\"message\":\"bad\"}", Some(e.clone())) {
        Ok(CreateUserError::Status400(x)) => assert_eq!(x, e),
        other => panic!("{:?}", other),
    }
    assert_eq!(
        CreateUserError::from_line("400:nope", None).unwrap_err(),
        "Unable to parse error response as JSON"
    );
    assert_eq!(CreateUserError::from_line("500:{oops", None).unwrap_err(), "Unable to parse as JSON");
}

#[test]
fn conversion_errors_from_static_text() {
    let e: ConversionError = "bad value".into();
    assert_eq!(e.message(), "bad value");
    assert_eq!(ConversionError::from("x").message(), "x");
}

#[test]
fn operation_errors_clone_and_compare() {
    let e = ListUsersError::from_line("500:{}", Some(Error { message: "m".to_string() })).unwrap();
    assert_eq!(e.clone(), e);
    let u = ListUsersError::from_line("404:[1]", None).unwrap();
    assert_ne!(u, e);
    assert_eq!(u.clone(), u);
    let c = CreateUserError::from_line("418:\"teapot\"", None).unwrap();
    assert_eq!(c.clone(), c);
    assert_ne!(c, CreateUserError::from_line("418:\"kettle\"", None).unwrap());
}
