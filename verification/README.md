# progenitor_impl

Generation of unit-test suites for OpenAPI clients, with the client-side
pieces that the generated tests exercise, written in Verus.

- `src/test_gen.rs`: the operation model, the test generator, and the laws of
  the generated tests (one test per response or parameter, plus a workflow
  test when asked for; distinct names).
- `src/tokens.rs`: the `proc_macro2` token streams that the generator writes,
  described as flat token sequences; identifier checks.
- `src/decimal.rs`: status codes as decimal text, reading them back, and
  splitting `code:value` error lines.
- `src/types.rs`, `src/types/error.rs`: the API types of the users client and
  the errors of its operations.
- `src/json.rs`: `serde_json` values, described by `JsonV`.
- `src/mock.rs`: the `httpmock` `When`/`Then` wrappers of each operation.
- `src/client.rs`: the request URL and the status handling of the client.
- `src/debug_text.rs`: the readable form of the text of a token stream.
- `app/`: the HTTP client itself (reqwest), the serde forms of the types, and
  the `MockServerExt` extension of `httpmock::MockServer`.
