//! Token streams of generated Rust code.
//!
//! Generated code is built as a `proc_macro2::TokenStream`.  Its contents are
//! described by a flat sequence of [`TokV`]: identifiers, punctuation, literals,
//! and the opening and closing of delimited groups.
use vstd::prelude::*;

verus! {

/// Delimiter of a group of tokens.
#[derive(Clone, Copy, Debug, PartialEq, Eq)]
pub enum Delim {
    Paren,
    Brace,
    Bracket,
}

/// One token of a flattened token stream.
pub enum TokV {
    /// An identifier, with its text and whether it is raw (`r#..`).
    Ident(Seq<char>, bool),
    /// A punctuation character, and whether it is joined to the next one.
    Punct(char, bool),
    /// A string literal with the given contents.
    Str(Seq<char>),
    /// A `u16`-suffixed integer literal.
    U16(u16),
    /// The opening of a group.
    Open(Delim),
    /// The closing of a group.
    Close(Delim),
}

#[verifier::external_type_specification]
#[verifier::external_body]
pub struct ExTokenStream(proc_macro2::TokenStream);

/// The flattened tokens of a token stream; a group appears as its opening,
/// its inner tokens and its closing.
pub uninterp spec fn stream_tokens(s: proc_macro2::TokenStream) -> Seq<TokV>;

/// Whether the Unicode property XID_Start holds of a character.
pub uninterp spec fn is_xid_start(c: char) -> bool;

/// Whether the Unicode property XID_Continue holds of a character.
pub uninterp spec fn is_xid_continue(c: char) -> bool;

/// What `syn` parses a Rust path into, as tokens; `None` when the text is no path.
pub uninterp spec fn parsed_path(s: Seq<char>) -> Option<Seq<TokV>>;

pub open spec fn is_ascii_char(c: char) -> bool {
    (c as u32) < 128
}

pub open spec fn is_ascii_letter(c: char) -> bool {
    ('a' <= c && c <= 'z') || ('A' <= c && c <= 'Z')
}

pub open spec fn is_ascii_digit(c: char) -> bool {
    '0' <= c && c <= '9'
}

/// XID_Start, with the ASCII part spelled out: exactly the ASCII letters.
pub open spec fn xid_start(c: char) -> bool {
    if is_ascii_char(c) {
        is_ascii_letter(c)
    } else {
        is_xid_start(c)
    }
}

/// XID_Continue, with the ASCII part spelled out: letters, digits and `_`.
pub open spec fn xid_continue(c: char) -> bool {
    if is_ascii_char(c) {
        is_ascii_letter(c) || is_ascii_digit(c) || c == '_'
    } else {
        is_xid_continue(c)
    }
}

pub open spec fn all_ascii_digits(s: Seq<char>) -> bool {
    forall|i: int| 0 <= i < s.len() ==> is_ascii_digit(#[trigger] s[i])
}

/// The texts that `proc_macro2::Ident::new` accepts.
pub open spec fn ident_accepted(s: Seq<char>) -> bool {
    &&& s.len() > 0
    &&& !all_ascii_digits(s)
    &&& (s[0] == '_' || xid_start(s[0]))
    &&& forall|i: int| 1 <= i < s.len() ==> xid_continue(#[trigger] s[i])
}

/// The texts that `proc_macro2::Ident::new_raw` accepts.
pub open spec fn raw_ident_accepted(s: Seq<char>) -> bool {
    &&& ident_accepted(s)
    &&& s != seq!['_']
    &&& s != seq!['s', 'u', 'p', 'e', 'r']
    &&& s != seq!['s', 'e', 'l', 'f']
    &&& s != seq!['S', 'e', 'l', 'f']
    &&& s != seq!['c', 'r', 'a', 't', 'e']
}

pub open spec fn has_raw_prefix(s: Seq<char>) -> bool {
    s.len() >= 2 && s[0] == 'r' && s[1] == '#'
}

/// The texts from which an identifier can be formatted: `r#name` gives a raw
/// identifier, any other text a plain one.
pub open spec fn formatted_ident_ok(s: Seq<char>) -> bool {
    if has_raw_prefix(s) {
        raw_ident_accepted(s.skip(2))
    } else {
        ident_accepted(s)
    }
}

/// The identifier token formatted from a text.
pub open spec fn formatted_ident(s: Seq<char>) -> TokV {
    if has_raw_prefix(s) {
        TokV::Ident(s.skip(2), true)
    } else {
        TokV::Ident(s, false)
    }
}

/// The characters that `proc_macro2::Punct::new` accepts.
pub open spec fn punct_accepted(c: char) -> bool {
    c == '!' || c == '#' || c == '$' || c == '%' || c == '&' || c == '\'' || c == '*' || c == '+'
        || c == ',' || c == '-' || c == '.' || c == '/' || c == ':' || c == ';' || c == '<'
        || c == '=' || c == '>' || c == '?' || c == '@' || c == '^' || c == '|' || c == '~'
}

/// An identifier token.
pub open spec fn ident(s: Seq<char>) -> TokV {
    TokV::Ident(s, false)
}

/// A punctuation token standing alone.
pub open spec fn punct(c: char) -> TokV {
    TokV::Punct(c, false)
}

/// `::` as two joined colons.
pub open spec fn colon2() -> Seq<TokV> {
    seq![TokV::Punct(':', true), TokV::Punct(':', false)]
}

/// A delimited group around `inner`.
pub open spec fn group(d: Delim, inner: Seq<TokV>) -> Seq<TokV> {
    seq![TokV::Open(d)] + inner + seq![TokV::Close(d)]
}

/// `proc_macro2::TokenStream::new`: an empty stream.
#[verifier::external_body]
pub(crate) fn stream_new() -> (r: proc_macro2::TokenStream)
    ensures
        stream_tokens(r) == Seq::<TokV>::empty(),
{
    proc_macro2::TokenStream::new()
}

/// `proc_macro2::Ident::new` appended to a stream: a plain identifier with the
/// given text (which must be one that the constructor accepts, else it panics;
/// the acceptance stated is the one that `proc_macro2` checks itself, outside a
/// procedural macro).
#[verifier::external_body]
pub(crate) fn push_ident(ts: &mut proc_macro2::TokenStream, name: &str)
    requires
        ident_accepted(name@),
    ensures
        stream_tokens(*final(ts)) == stream_tokens(*old(ts)).push(TokV::Ident(name@, false)),
{
    ts.extend(std::iter::once(proc_macro2::Ident::new(name, proc_macro2::Span::call_site())));
}

/// `proc_macro2::Ident::new_raw` appended to a stream: a raw identifier
/// `r#name` (the constructor panics on the texts that `raw_ident_accepted` excludes).
#[verifier::external_body]
pub(crate) fn push_raw_ident(ts: &mut proc_macro2::TokenStream, name: &str)
    requires
        raw_ident_accepted(name@),
    ensures
        stream_tokens(*final(ts)) == stream_tokens(*old(ts)).push(TokV::Ident(name@, true)),
{
    ts.extend(std::iter::once(proc_macro2::Ident::new_raw(name, proc_macro2::Span::call_site())));
}

/// `proc_macro2::Punct::new` appended to a stream, joint or alone (the
/// constructor panics on a character that is no punctuation).
#[verifier::external_body]
pub(crate) fn push_punct(ts: &mut proc_macro2::TokenStream, c: char, joint: bool)
    requires
        punct_accepted(c),
    ensures
        stream_tokens(*final(ts)) == stream_tokens(*old(ts)).push(TokV::Punct(c, joint)),
{
    let spacing = if joint {
        proc_macro2::Spacing::Joint
    } else {
        proc_macro2::Spacing::Alone
    };
    ts.extend(std::iter::once(proc_macro2::Punct::new(c, spacing)));
}

/// `proc_macro2::Literal::string` appended to a stream: a string literal.
#[verifier::external_body]
pub(crate) fn push_str_literal(ts: &mut proc_macro2::TokenStream, s: &str)
    ensures
        stream_tokens(*final(ts)) == stream_tokens(*old(ts)).push(TokV::Str(s@)),
{
    ts.extend(std::iter::once(proc_macro2::Literal::string(s)));
}

/// `proc_macro2::Literal::u16_suffixed` appended to a stream.
#[verifier::external_body]
pub(crate) fn push_u16_literal(ts: &mut proc_macro2::TokenStream, n: u16)
    ensures
        stream_tokens(*final(ts)) == stream_tokens(*old(ts)).push(TokV::U16(n)),
{
    ts.extend(std::iter::once(proc_macro2::Literal::u16_suffixed(n)));
}

/// `proc_macro2::Group::new` appended to a stream: `inner` between delimiters.
#[verifier::external_body]
pub(crate) fn push_group(ts: &mut proc_macro2::TokenStream, d: Delim, inner: proc_macro2::TokenStream)
    ensures
        stream_tokens(*final(ts)) == stream_tokens(*old(ts)) + group(d, stream_tokens(inner)),
{
    let delimiter = match d {
        Delim::Paren => proc_macro2::Delimiter::Parenthesis,
        Delim::Brace => proc_macro2::Delimiter::Brace,
        Delim::Bracket => proc_macro2::Delimiter::Bracket,
    };
    ts.extend(std::iter::once(proc_macro2::Group::new(delimiter, inner)));
}

/// `Extend<TokenStream>` of `proc_macro2::TokenStream`: appends the tokens of another stream.
#[verifier::external_body]
pub(crate) fn push_stream(ts: &mut proc_macro2::TokenStream, other: &proc_macro2::TokenStream)
    ensures
        stream_tokens(*final(ts)) == stream_tokens(*old(ts)) + stream_tokens(*other),
{
    ts.extend(std::iter::once(other.clone()));
}

/// `unicode_ident::is_xid_start`; on ASCII its table holds exactly the letters.
#[verifier::external_body]
fn char_is_xid_start(c: char) -> (r: bool)
    ensures
        r == (if is_ascii_char(c) { is_ascii_letter(c) } else { is_xid_start(c) }),
{
    unicode_ident::is_xid_start(c)
}

/// `unicode_ident::is_xid_continue`; on ASCII its table holds exactly the
/// letters, the digits and `_`.
#[verifier::external_body]
fn char_is_xid_continue(c: char) -> (r: bool)
    ensures
        r == (if is_ascii_char(c) {
            is_ascii_letter(c) || is_ascii_digit(c) || c == '_'
        } else {
            is_xid_continue(c)
        }),
{
    unicode_ident::is_xid_continue(c)
}

/// `syn::parse_str::<syn::Path>`, the parsed path turned back into tokens.
#[verifier::external_body]
fn parse_path(s: &str) -> (r: Option<proc_macro2::TokenStream>)
    ensures
        r is Some <==> parsed_path(s@) is Some,
        r matches Some(t) ==> parsed_path(s@) == Some(stream_tokens(t)),
{
    match syn::parse_str::<syn::Path>(s) {
        Ok(p) => Some(quote::ToTokens::into_token_stream(p)),
        Err(_) => None,
    }
}

/// Whether `proc_macro2::Ident::new` accepts a text.
pub fn is_ident_text(s: &str) -> (r: bool)
    ensures
        r == ident_accepted(s@),
{
    let n = s.unicode_len();
    if n == 0 {
        return false;
    }
    let mut all_digits = true;
    let mut i: usize = 0;
    while i < n
        invariant
            n == s@.len(),
            i <= n,
            all_digits == (forall|j: int| 0 <= j < i ==> is_ascii_digit(#[trigger] s@[j])),
        decreases n - i,
    {
        let c = s.get_char(i);
        if !('0' <= c && c <= '9') {
            all_digits = false;
        }
        i = i + 1;
    }
    if all_digits {
        return false;
    }
    let first = s.get_char(0);
    if !(first == '_' || char_is_xid_start(first)) {
        return false;
    }
    let mut k: usize = 1;
    while k < n
        invariant
            n == s@.len(),
            1 <= k <= n,
            forall|j: int| 1 <= j < k ==> xid_continue(#[trigger] s@[j]),
        decreases n - k,
    {
        let c = s.get_char(k);
        if !char_is_xid_continue(c) {
            assert(!xid_continue(s@[k as int]));
            return false;
        }
        k = k + 1;
    }
    true
}

/// Whether a text can be formatted as an identifier (see `formatted_ident_ok`).
pub fn is_formatted_ident_text(s: &str) -> (r: bool)
    ensures
        r == formatted_ident_ok(s@),
{
    let n = s.unicode_len();
    if n >= 2 && s.get_char(0) == 'r' && s.get_char(1) == '#' {
        let rest = s.substring_char(2, n);
        assert(rest@ =~= s@.skip(2));
        if !is_ident_text(rest) {
            return false;
        }
        let reserved = is_reserved_raw(rest);
        !reserved
    } else {
        is_ident_text(s)
    }
}

/// Whether a text is one of those that cannot be a raw identifier.
fn is_reserved_raw(s: &str) -> (r: bool)
    ensures
        r == (s@ == seq!['_'] || s@ == seq!['s', 'u', 'p', 'e', 'r'] || s@ == seq!['s', 'e', 'l', 'f']
            || s@ == seq!['S', 'e', 'l', 'f'] || s@ == seq!['c', 'r', 'a', 't', 'e']),
{
    let n = s.unicode_len();
    if n == 1 {
        let r = s.get_char(0) == '_';
        if r {
            assert(s@ =~= seq!['_']);
        }
        r
    } else if n == 4 {
        let c0 = s.get_char(0);
        let r = (c0 == 's' || c0 == 'S') && s.get_char(1) == 'e' && s.get_char(2) == 'l'
            && s.get_char(3) == 'f';
        if r {
            if c0 == 's' {
                assert(s@ =~= seq!['s', 'e', 'l', 'f']);
            } else {
                assert(s@ =~= seq!['S', 'e', 'l', 'f']);
            }
        }
        r
    } else if n == 5 {
        let c0 = s.get_char(0);
        let c1 = s.get_char(1);
        let c2 = s.get_char(2);
        let c3 = s.get_char(3);
        let c4 = s.get_char(4);
        let sup = c0 == 's' && c1 == 'u' && c2 == 'p' && c3 == 'e' && c4 == 'r';
        let cra = c0 == 'c' && c1 == 'r' && c2 == 'a' && c3 == 't' && c4 == 'e';
        if sup {
            assert(s@ =~= seq!['s', 'u', 'p', 'e', 'r']);
        }
        if cra {
            assert(s@ =~= seq!['c', 'r', 'a', 't', 'e']);
        }
        sup || cra
    } else {
        false
    }
}

/// Appends the identifier formatted from a text: a raw identifier for
/// `r#name`, a plain one otherwise.
pub fn push_formatted_ident(ts: &mut proc_macro2::TokenStream, s: &str)
    requires
        formatted_ident_ok(s@),
    ensures
        stream_tokens(*final(ts)) == stream_tokens(*old(ts)).push(formatted_ident(s@)),
{
    let n = s.unicode_len();
    if n >= 2 && s.get_char(0) == 'r' && s.get_char(1) == '#' {
        let rest = s.substring_char(2, n);
        assert(rest@ =~= s@.skip(2));
        push_raw_ident(ts, rest);
    } else {
        push_ident(ts, s);
    }
}

/// The tokens of a Rust path, `None` when the text does not parse as one.
pub fn path_tokens(s: &str) -> (r: Option<proc_macro2::TokenStream>)
    ensures
        r is Some <==> parsed_path(s@) is Some,
        r matches Some(t) ==> parsed_path(s@) == Some(stream_tokens(t)),
{
    parse_path(s)
}

/// Appends `::`.
pub fn push_colon2(ts: &mut proc_macro2::TokenStream)
    ensures
        stream_tokens(*final(ts)) == stream_tokens(*old(ts)) + colon2(),
{
    push_punct(ts, ':', true);
    push_punct(ts, ':', false);
    assert(stream_tokens(*ts) =~= stream_tokens(*old(ts)) + colon2());
}

/// Appends a punctuation character standing alone.
pub fn push_alone(ts: &mut proc_macro2::TokenStream, c: char)
    requires
        punct_accepted(c),
    ensures
        stream_tokens(*final(ts)) == stream_tokens(*old(ts)).push(punct(c)),
{
    push_punct(ts, c, false);
}

/// Appends an empty group `()`.
pub fn push_empty_parens(ts: &mut proc_macro2::TokenStream)
    ensures
        stream_tokens(*final(ts)) == stream_tokens(*old(ts)) + group(Delim::Paren, Seq::empty()),
{
    let inner = stream_new();
    push_group(ts, Delim::Paren, inner);
}

} // verus!
