//! The decisions of the generated client for the users API: where its
//! requests go and how it reads the status of a response.
use vstd::prelude::*;

verus! {

/// How an operation treats a response, by its status.
#[derive(Clone, Copy, Debug, PartialEq, Eq)]
pub enum ResponseDisposition {
    /// The documented success: the body is the operation's value.
    Success,
    /// The documented error: the body is the operation's error value.
    ErrorResponse,
    /// Any other status.
    Unexpected,
}

/// The version of the API that the client speaks.
pub fn api_version() -> (r: &'static str)
    ensures
        r@ == "1.0.0"@,
{
    "1.0.0"
}

/// The URL of the users collection under a base URL.
pub fn users_url(baseurl: &str) -> (r: String)
    ensures
        r@ == baseurl@ + "/users"@,
{
    let mut url = String::from_str(baseurl);
    url.append("/users");
    url
}

/// How `list_users` treats a status: 200 succeeds, 500 is its documented error.
pub fn list_users_disposition(status: u16) -> (r: ResponseDisposition)
    ensures
        r == ResponseDisposition::Success <==> status == 200,
        r == ResponseDisposition::ErrorResponse <==> status == 500,
        r == ResponseDisposition::Unexpected <==> status != 200 && status != 500,
{
    if status == 200 {
        ResponseDisposition::Success
    } else if status == 500 {
        ResponseDisposition::ErrorResponse
    } else {
        ResponseDisposition::Unexpected
    }
}

/// How `create_user` treats a status: 201 succeeds, 400 is its documented error.
pub fn create_user_disposition(status: u16) -> (r: ResponseDisposition)
    ensures
        r == ResponseDisposition::Success <==> status == 201,
        r == ResponseDisposition::ErrorResponse <==> status == 400,
        r == ResponseDisposition::Unexpected <==> status != 201 && status != 400,
{
    if status == 201 {
        ResponseDisposition::Success
    } else if status == 400 {
        ResponseDisposition::ErrorResponse
    } else {
        ResponseDisposition::Unexpected
    }
}

} // verus!
