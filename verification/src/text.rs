//! Reading the text that the version-control tool prints.

use vstd::prelude::*;
use vstd::utf8::{decode_utf8, valid_utf8};

verus! {

/// The text that `String::from_utf8_lossy` makes of `bytes`.
pub uninterp spec fn lossy_text(bytes: Seq<u8>) -> Seq<char>;

/// Whether `char::is_whitespace` holds of `c`.
pub uninterp spec fn white_space(c: char) -> bool;

/// Calls `String::from_utf8_lossy`. The contract names the text that comes
/// back and claims, as the documentation of std does, that bytes which are
/// valid UTF-8 are decoded as they stand.
#[verifier::external_body]
pub(crate) fn decode_lossy(bytes: &[u8]) -> (r: String)
    ensures
        r@ == lossy_text(bytes@),
        valid_utf8(bytes@) ==> r@ == decode_utf8(bytes@),
{
    String::from_utf8_lossy(bytes).into_owned()
}

/// Calls `char::is_whitespace`. The contract names the answer and claims
/// nothing else of it.
#[verifier::external_body]
pub(crate) fn is_space(c: char) -> (r: bool)
    ensures
        r == white_space(c),
{
    c.is_whitespace()
}

/// How many characters of `s` are left once the white space at its end is
/// taken away.
pub open spec fn trimmed_len(s: Seq<char>) -> nat
    decreases s.len(),
{
    if s.len() > 0 && white_space(s.last()) {
        trimmed_len(s.drop_last())
    } else {
        s.len()
    }
}

/// `s` without the white space at its end.
pub open spec fn trimmed(s: Seq<char>) -> Seq<char> {
    s.take(trimmed_len(s) as int)
}

/// The repository root that the tool's output `stdout` names: its text
/// without the white space, line ends among it, that follows the path.
pub open spec fn root_of(stdout: Seq<u8>) -> Seq<char> {
    trimmed(lossy_text(stdout))
}

/// `trimmed_len(s)` is the one length at which `s` can be cut so that only
/// white space is cut off and none is left at the end.
pub proof fn lemma_trimmed_len(s: Seq<char>)
    ensures
        trimmed_len(s) <= s.len(),
        forall|i: int| trimmed_len(s) <= i < s.len() ==> white_space(#[trigger] s[i]),
        trimmed_len(s) > 0 ==> !white_space(s[trimmed_len(s) - 1]),
    decreases s.len(),
{
    if s.len() > 0 && white_space(s.last()) {
        let t = s.drop_last();
        lemma_trimmed_len(t);
        assert forall|i: int| trimmed_len(s) <= i < s.len() implies white_space(
            #[trigger] s[i],
        ) by {
            if i < t.len() {
                assert(s[i] == t[i]);
            }
        }
        if trimmed_len(s) > 0 {
            assert(s[trimmed_len(s) - 1] == t[trimmed_len(t) - 1]);
        }
    }
}

/// A length `n` that cuts only white space off `s` and leaves none at the end
/// is `trimmed_len(s)`.
pub proof fn lemma_trimmed_len_unique(s: Seq<char>, n: nat)
    requires
        n <= s.len(),
        forall|i: int| n <= i < s.len() ==> white_space(#[trigger] s[i]),
        n > 0 ==> !white_space(s[n - 1]),
    ensures
        trimmed_len(s) == n,
    decreases s.len(),
{
    if s.len() > 0 && white_space(s.last()) {
        let t = s.drop_last();
        assert(n < s.len());
        assert forall|i: int| n <= i < t.len() implies white_space(#[trigger] t[i]) by {
            assert(t[i] == s[i]);
        }
        if n > 0 {
            assert(t[n - 1] == s[n - 1]);
        }
        lemma_trimmed_len_unique(t, n);
    } else if s.len() > 0 {
        if n < s.len() {
            assert(white_space(s[s.len() - 1]));
        }
    }
}

/// Takes the white space off the end of `s`: what is returned is the start
/// of `s`, all that is left out is white space, and no white space ends it.
pub fn trim_end(s: &str) -> (r: String)
    ensures
        r@ == trimmed(s@),
        r@.len() <= s@.len(),
        forall|i: int| r@.len() <= i < s@.len() ==> white_space(#[trigger] s@[i]),
        r@.len() > 0 ==> !white_space(r@.last()),
{
    let mut end: usize = s.unicode_len();
    while end > 0 && is_space(s.get_char(end - 1))
        invariant
            end <= s@.len(),
            forall|i: int| end <= i < s@.len() ==> white_space(#[trigger] s@[i]),
        decreases end,
    {
        end = end - 1;
    }
    proof {
        lemma_trimmed_len_unique(s@, end as nat);
        lemma_trimmed_len(s@);
    }
    s.substring_char(0, end).to_owned()
}

/// Reads the repository root out of what the tool printed: the bytes are
/// taken as text, and the white space after the path is dropped. Output that
/// is valid UTF-8 is decoded as it stands.
pub fn repo_root(stdout: &[u8]) -> (r: String)
    ensures
        r@ == root_of(stdout@),
        valid_utf8(stdout@) ==> r@ == trimmed(decode_utf8(stdout@)),
{
    let text = decode_lossy(stdout);
    trim_end(text.as_str())
}

} // verus!
