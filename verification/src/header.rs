//! `Name:Value` request-header parsing: split on the first colon, trim
//! both sides, then validate the two tokens.
use vstd::prelude::*;

use crate::chars::{trim, trim_of};
use crate::errors::WsError;

verus! {

/// Whether `http::HeaderName::from_bytes` accepts `s` as a header name.
pub uninterp spec fn header_name_ok(s: Seq<char>) -> bool;

/// Whether `http::HeaderValue::from_str` accepts `s` as a header value.
pub uninterp spec fn header_value_ok(s: Seq<char>) -> bool;

/// Relies on `http::HeaderName::from_bytes`: whether it accepts a name
/// token depends on the token's characters alone.
#[verifier::external_body]
fn header_name_valid(s: &str) -> (r: bool)
    ensures
        r == header_name_ok(s@),
{
    http::HeaderName::from_bytes(s.as_bytes()).is_ok()
}

/// Relies on `http::HeaderValue::from_str`: whether it accepts a value
/// token depends on the token's characters alone.
#[verifier::external_body]
fn header_value_valid(s: &str) -> (r: bool)
    ensures
        r == header_value_ok(s@),
{
    http::HeaderValue::from_str(s).is_ok()
}

/// Index of the first colon in `s`, or `s.len()` when there is none.
pub open spec fn first_colon(s: Seq<char>) -> int
    decreases s.len(),
{
    if s.len() == 0 {
        0
    } else if s[0] == ':' {
        0
    } else {
        1 + first_colon(s.drop_first())
    }
}

/// The name and value halves of a header string: the text before the
/// first colon and the text after it, both trimmed. `None` when `s`
/// holds no colon.
pub open spec fn split_header(s: Seq<char>) -> Option<(Seq<char>, Seq<char>)> {
    if first_colon(s) == s.len() {
        None
    } else {
        Some(
            (
                trim_of(s.take(first_colon(s))),
                trim_of(s.skip(first_colon(s) + 1)),
            ),
        )
    }
}

proof fn lemma_first_colon_at(s: Seq<char>, i: int)
    requires
        0 <= i <= s.len(),
        forall|j: int| 0 <= j < i ==> s[j] != ':',
        i == s.len() || s[i] == ':',
    ensures
        first_colon(s) == i,
    decreases i,
{
    if s.len() == 0 {
    } else if i == 0 {
    } else {
        let t = s.drop_first();
        assert forall|j: int| 0 <= j < i - 1 implies t[j] != ':' by {
            assert(t[j] == s[j + 1]);
        }
        if i - 1 < t.len() {
            assert(t[i - 1] == s[i]);
        }
        lemma_first_colon_at(t, i - 1);
    }
}

proof fn lemma_first_colon_props(s: Seq<char>)
    ensures
        0 <= first_colon(s) <= s.len(),
        first_colon(s) < s.len() ==> s[first_colon(s)] == ':',
        forall|j: int| 0 <= j < first_colon(s) ==> s[j] != ':',
    decreases s.len(),
{
    if s.len() > 0 && s[0] != ':' {
        let t = s.drop_first();
        lemma_first_colon_props(t);
        assert forall|j: int| 0 <= j < first_colon(s) implies s[j] != ':' by {
            if j > 0 {
                assert(s[j] == t[j - 1]);
            }
        }
        if first_colon(s) < s.len() {
            assert(s[first_colon(s)] == t[first_colon(t)]);
        }
    }
}

/// Splitting fails exactly on the strings without any colon.
pub proof fn lemma_no_colon(s: Seq<char>)
    ensures
        split_header(s) is None <==> (forall|i: int| 0 <= i < s.len() ==> s[i] != ':'),
{
    lemma_first_colon_props(s);
    if split_header(s) is None {
        assert(first_colon(s) == s.len());
    } else {
        assert(s[first_colon(s)] == ':');
    }
}

/// Splitting is exact: a string assembled as `name ++ ":" ++ value`, with
/// no colon in the name, splits into the trimmed name and trimmed value.
pub proof fn lemma_header_split(name: Seq<char>, value: Seq<char>)
    requires
        forall|i: int| 0 <= i < name.len() ==> name[i] != ':',
    ensures
        split_header(name + seq![':'] + value) == Some((trim_of(name), trim_of(value))),
{
    let s = name + seq![':'] + value;
    assert forall|j: int| 0 <= j < name.len() implies s[j] != ':' by {
        assert(s[j] == name[j]);
    }
    assert(s[name.len() as int] == ':');
    lemma_first_colon_at(s, name.len() as int);
    assert(s.take(name.len() as int) =~= name);
    assert(s.skip(name.len() as int + 1) =~= value);
}

/// Parse one `Name:Value` argument: split on the first colon, trim both
/// halves, and accept them only if `http` accepts them as a header name
/// and value. Every rejection is `InvalidHeader`.
pub fn parse_header(h: &str) -> (r: Result<(String, String), WsError>)
    ensures
        split_header(h@) is None ==> r == Err::<(String, String), WsError>(WsError::InvalidHeader),
        split_header(h@) matches Some(nv) ==> {
            &&& (header_name_ok(nv.0) && header_value_ok(nv.1)) <==> r is Ok
            &&& (r matches Ok(p) ==> p.0@ == nv.0 && p.1@ == nv.1)
            &&& (r is Err ==> r == Err::<(String, String), WsError>(WsError::InvalidHeader))
        },
{
    let n = h.unicode_len();
    let mut i: usize = 0;
    while i < n && h.get_char(i) != ':'
        invariant
            0 <= i <= n,
            n == h@.len(),
            forall|j: int| 0 <= j < i ==> h@[j] != ':',
        decreases n - i,
    {
        i = i + 1;
    }
    proof {
        lemma_first_colon_at(h@, i as int);
    }
    if i == n {
        return Err(WsError::InvalidHeader);
    }
    let name = trim(h.substring_char(0, i));
    let value = trim(h.substring_char(i + 1, n));
    if header_name_valid(name) && header_value_valid(value) {
        Ok((name.to_owned(), value.to_owned()))
    } else {
        Err(WsError::InvalidHeader)
    }
}

} // verus!
