//! Making the text of a generated token stream readable: the spacing that a
//! token stream prints with is broken into lines around `;`, `{` and `}`, and
//! tightened around `::` and `,`.
use vstd::prelude::*;
use crate::decimal::string_push;

verus! {

/// `s` with every occurrence of `from` replaced by `to`, the occurrences
/// taken from left to right without overlapping, as `str::replace` does for a
/// non-empty pattern.
pub open spec fn replace_all(s: Seq<char>, from: Seq<char>, to: Seq<char>) -> Seq<char>
    decreases s.len(),
{
    if from.len() == 0 || s.len() == 0 {
        s
    } else if from.len() <= s.len() && s.take(from.len() as int) == from {
        to + replace_all(s.skip(from.len() as int), from, to)
    } else {
        seq![s[0]] + replace_all(s.skip(1), from, to)
    }
}

/// The readable form of the text of a token stream: ` ; ` becomes `;` and a
/// line break, ` { ` is followed by a line break, ` } ` stands on a line of
/// its own, and ` :: ` and ` , ` lose the spaces before them (and after `::`),
/// the replacements made in that order.
pub open spec fn readable_tokens(s: Seq<char>) -> Seq<char> {
    replace_all(
        replace_all(
            replace_all(replace_all(replace_all(s, " ; "@, ";\n"@), " { "@, " {\n"@), " } "@, "\n}\n"@),
            " :: "@,
            "::"@,
        ),
        " , "@,
        ", "@,
    )
}

/// Whether `from` occurs in `s` at character `i`.
fn occurs_at(s: &str, i: usize, from: &str) -> (r: bool)
    requires
        i + from@.len() <= s@.len(),
        s@.len() <= usize::MAX,
    ensures
        r == (s@.skip(i as int).take(from@.len() as int) == from@),
{
    let m = from.unicode_len();
    let mut k: usize = 0;
    while k < m
        invariant
            m == from@.len(),
            k <= m,
            i + m <= s@.len(),
            s@.len() <= usize::MAX,
            forall|j: int| 0 <= j < k ==> s@[i + j] == from@[j],
        decreases m - k,
    {
        if s.get_char(i + k) != from.get_char(k) {
            assert(s@.skip(i as int).take(m as int)[k as int] != from@[k as int]);
            return false;
        }
        k = k + 1;
    }
    assert(s@.skip(i as int).take(m as int) =~= from@);
    true
}

/// `s` with every occurrence of the non-empty `from` replaced by `to`.
fn replace_text(s: &str, from: &str, to: &str) -> (r: String)
    requires
        from@.len() > 0,
    ensures
        r@ == replace_all(s@, from@, to@),
{
    let n = s.unicode_len();
    let m = from.unicode_len();
    let mut out = String::new();
    let mut i: usize = 0;
    assert(s@.skip(0) =~= s@);
    assert(out@ + replace_all(s@.skip(0), from@, to@) =~= replace_all(s@, from@, to@));
    while i < n
        invariant
            n == s@.len(),
            m == from@.len(),
            m > 0,
            i <= n,
            out@ + replace_all(s@.skip(i as int), from@, to@) == replace_all(s@, from@, to@),
        decreases n - i,
    {
        let ghost t = s@.skip(i as int);
        if m <= n - i && occurs_at(s, i, from) {
            assert(t.skip(m as int) =~= s@.skip(i + m));
            assert(replace_all(t, from@, to@) == to@ + replace_all(t.skip(m as int), from@, to@));
            out.append(to);
            assert(out@ + replace_all(s@.skip(i + m), from@, to@) =~= replace_all(s@, from@, to@));
            i = i + m;
        } else {
            let c = s.get_char(i);
            assert(t.skip(1) =~= s@.skip(i + 1));
            assert(t[0] == c);
            assert(replace_all(t, from@, to@) == seq![c] + replace_all(t.skip(1), from@, to@));
            string_push(&mut out, c);
            assert(out@ + replace_all(s@.skip(i + 1), from@, to@) =~= replace_all(s@, from@, to@));
            i = i + 1;
        }
    }
    assert(s@.skip(n as int) =~= Seq::<char>::empty());
    assert(out@ =~= out@ + replace_all(s@.skip(n as int), from@, to@));
    out
}

/// The readable form of the text of a token stream.
pub fn readable_token_text(content: &str) -> (r: String)
    ensures
        r@ == readable_tokens(content@),
{
    proof {
        reveal_strlit(" ; ");
        reveal_strlit(" { ");
        reveal_strlit(" } ");
        reveal_strlit(" :: ");
        reveal_strlit(" , ");
    }
    let a = replace_text(content, " ; ", ";\n");
    let b = replace_text(a.as_str(), " { ", " {\n");
    let c = replace_text(b.as_str(), " } ", "\n}\n");
    let d = replace_text(c.as_str(), " :: ", "::");
    replace_text(d.as_str(), " , ", ", ")
}

} // verus!
