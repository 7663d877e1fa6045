//! Generation of test suites for OpenAPI clients, and the verified parts of a
//! generated client with its mock-server support.
pub mod tokens;
pub mod decimal;
pub mod test_gen;
pub mod json;
pub mod types;
pub mod mock;
pub mod client;
pub mod debug_text;
