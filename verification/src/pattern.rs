//! First match of a regular expression, through the `regex` crate.
use vstd::prelude::*;

verus! {

/// What `regex::Regex::new(pattern)` followed by `find(haystack)` gives, as
/// the text before the leftmost-first match, the match, and the text after
/// it; `None` when the pattern does not compile or nothing matches.
pub uninterp spec fn regex_first_match(pattern: Seq<char>, haystack: Seq<char>) -> Option<
    (Seq<char>, Seq<char>, Seq<char>),
>;

/// Whether `s` is one or more ASCII digits `0`..`9`.
pub open spec fn ascii_digit_run(s: Seq<char>) -> bool {
    s.len() > 0 && forall|i: int| 0 <= i < s.len() ==> '0' <= #[trigger] s[i] && s[i] <= '9'
}

/// Whether every character of `s` is ASCII and not a digit (so none of them
/// is a Unicode decimal digit either).
pub open spec fn ascii_non_digits(s: Seq<char>) -> bool {
    forall|i: int| 0 <= i < s.len() ==> (#[trigger] s[i] as u32) < 128 && !('0' <= s[i] && s[i] <= '9')
}

/// Whether `s` opens with "Week " or "week " (one space).
pub open spec fn opens_with_week(s: Seq<char>) -> bool {
    &&& s.len() >= 5
    &&& (s[0] == 'W' || s[0] == 'w')
    &&& s[1] == 'e'
    &&& s[2] == 'e'
    &&& s[3] == 'k'
    &&& s[4] == ' '
}

/// Whether a run of digits ends where `rest` begins: `rest` is empty or opens
/// with an ASCII character that is not a digit.
pub open spec fn ends_digit_run(rest: Seq<char>) -> bool {
    rest.len() == 0 || ascii_non_digits(rest.take(1))
}

/// On "Week " (or "week "), ASCII digits and then no further digit, the
/// first match of `[Ww]eek\s*\d+` runs from the start through the last of
/// those digits.
pub open spec fn week_match_found(
    pattern: Seq<char>,
    haystack: Seq<char>,
    r: Option<(String, String, String)>,
) -> bool {
    forall|j: int|
        #![trigger haystack.take(j)]
        pattern == "[Ww]eek\\s*\\d+"@ && 5 < j <= haystack.len() && opens_with_week(haystack)
            && ascii_digit_run(haystack.subrange(5, j)) && ends_digit_run(haystack.skip(j)) ==> (r matches Some(
            parts) && parts.0@.len() == 0 && parts.1@ == haystack.take(j) && parts.2@ == haystack.skip(j))
}

/// On ASCII non-digits followed by ASCII digits up to the end, the first
/// match of `\d+` is those digits.
pub open spec fn digits_match_found(
    pattern: Seq<char>,
    haystack: Seq<char>,
    r: Option<(String, String, String)>,
) -> bool {
    forall|k: int|
        #![trigger haystack.skip(k)]
        pattern == "\\d+"@ && 0 <= k < haystack.len() && ascii_non_digits(haystack.take(k))
            && ascii_digit_run(haystack.skip(k)) ==> (r matches Some(parts) && parts.0@ == haystack.take(
            k) && parts.1@ == haystack.skip(k) && parts.2@.len() == 0)
}

/// Calls `regex::Regex::new` and `regex::Regex::find` (regex 1.13), and
/// splits the haystack at the match's byte offsets.
/// Trusted: the result is `regex_first_match` of the pattern and the haystack
/// (the crate's matching depends on these two alone), and the three parts put
/// back together give the haystack, since a `Match` is the haystack's slice
/// from its `start()` to its `end()`. Of the two patterns the library uses it
/// states what the regex syntax documents on plain inputs (`\d` takes every
/// decimal digit, `\s` a space, `+` and `*` are greedy, and the match found
/// is the leftmost-first one): `[Ww]eek\s*\d+` on "Week ", ASCII digits and
/// then no further digit matches from the start through the last of those
/// digits; `\d+` on ASCII non-digits followed by ASCII digits up to the end
/// matches those digits. Other values of `regex_first_match` are not stated.
#[verifier::external_body]
pub(crate) fn find_first(pattern: &str, haystack: &str) -> (r: Option<(String, String, String)>)
    ensures
        r is Some <==> regex_first_match(pattern@, haystack@) is Some,
        r matches Some(parts) ==> regex_first_match(pattern@, haystack@) == Some(
            (parts.0@, parts.1@, parts.2@),
        ),
        r matches Some(parts) ==> parts.0@ + parts.1@ + parts.2@ == haystack@,
        week_match_found(pattern@, haystack@, r),
        digits_match_found(pattern@, haystack@, r),
{
    let re = match regex::Regex::new(pattern) {
        Ok(re) => re,
        Err(_) => return None,
    };
    match re.find(haystack) {
        Some(m) => Some(
            (
                haystack[..m.start()].to_string(),
                m.as_str().to_string(),
                haystack[m.end()..].to_string(),
            ),
        ),
        None => None,
    }
}

} // verus!
