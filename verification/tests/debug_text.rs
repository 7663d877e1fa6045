use progenitor_impl::debug_text::readable_token_text;

/// The replacements made with std, for comparison.
fn with_std(content: &str) -> String {
    content
        .replace(" ; ", ";\n")
        .replace(" { ", " {\n")
        .replace(" } ", "\n}\n")
        .replace(" :: ", "::")
        .replace(" , ", ", ")
}

#[test]
fn token_text_is_broken_into_lines() {
    let text = "async fn t () { let x = a :: b (1 , 2) ; } ";
    assert_eq!(readable_token_text(text), "async fn t () {\nlet x = a::b (1, 2);\n} ");
    assert_eq!(readable_token_text("a } b"), "a\n}\nb");
}

#[test]
fn readable_text_agrees_with_std_replace() {
    let samples = [
        "",
        ";",
        " ; ; ; ",
        " ;  ; ",
        "a { b } c",
        " {  } ",
        " :: :: ",
        " , , , ",
        "x ; { } :: , é ; ",
        "# [tokio :: test] async fn f () { let s = MockServer :: start () ; }",
    ];
    for s in samples {
        assert_eq!(readable_token_text(s), with_std(s), "{:?}", s);
    }
}
