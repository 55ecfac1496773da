//! Validity of caller-supplied HTTP headers. A header that fails these rules
//! is rejected before any request is built, so no network call is attempted
//! on its behalf.
//!
//! The rules mirror the transport grammar: a header name is a non-empty run
//! of token characters; a header value may hold horizontal tabs and any
//! character from space upward except delete.

use vstd::prelude::*;

use crate::errors::ErrorKind;
use crate::errors::FetchError;

verus! {

/// The token characters allowed in a header (field) name.
pub open spec fn is_header_name_char(c: char) -> bool {
    ||| 'a' <= c && c <= 'z'
    ||| 'A' <= c && c <= 'Z'
    ||| '0' <= c && c <= '9'
    ||| c == '!' || c == '#' || c == '$' || c == '%' || c == '&' || c == '\''
    ||| c == '*' || c == '+' || c == '-' || c == '.' || c == '^' || c == '_'
    ||| c == '`' || c == '|' || c == '~'
}

/// A header name is a non-empty run of token characters.
pub open spec fn valid_header_name(s: Seq<char>) -> bool {
    s.len() > 0 && forall|i: int| 0 <= i < s.len() ==> is_header_name_char(#[trigger] s[i])
}

/// The characters allowed in a header value: horizontal tab, and everything
/// from space upward except delete.
pub open spec fn is_header_value_char(c: char) -> bool {
    c == '\t' || (' ' <= c && c != '\x7f')
}

/// A header value holds only allowed characters; it may be empty.
pub open spec fn valid_header_value(s: Seq<char>) -> bool {
    forall|i: int| 0 <= i < s.len() ==> is_header_value_char(#[trigger] s[i])
}

/// A (name, value) pair that may be attached to a request.
pub open spec fn header_pair_valid(p: (String, String)) -> bool {
    valid_header_name(p.0@) && valid_header_value(p.1@)
}

/// Every pair in the set is attachable.
pub open spec fn headers_valid(hs: Seq<(String, String)>) -> bool {
    forall|i: int| 0 <= i < hs.len() ==> header_pair_valid(#[trigger] hs[i])
}

fn name_char_ok(c: char) -> (b: bool)
    ensures
        b == is_header_name_char(c),
{
    ('a' <= c && c <= 'z') || ('A' <= c && c <= 'Z') || ('0' <= c && c <= '9') || c == '!'
        || c == '#' || c == '$' || c == '%' || c == '&' || c == '\'' || c == '*' || c == '+'
        || c == '-' || c == '.' || c == '^' || c == '_' || c == '`' || c == '|' || c == '~'
}

fn value_char_ok(c: char) -> (b: bool)
    ensures
        b == is_header_value_char(c),
{
    c == '\t' || (' ' <= c && c != '\x7f')
}

/// Decides whether `s` is a valid header name.
pub fn check_header_name(s: &str) -> (ok: bool)
    ensures
        ok == valid_header_name(s@),
{
    let n = s.unicode_len();
    if n == 0 {
        return false;
    }
    let mut i: usize = 0;
    while i < n
        invariant
            n == s@.len(),
            i <= n,
            forall|j: int| 0 <= j < i ==> is_header_name_char(#[trigger] s@[j]),
        decreases n - i,
    {
        let c = s.get_char(i);
        if !name_char_ok(c) {
            return false;
        }
        i = i + 1;
    }
    true
}

/// Decides whether `s` is a valid header value.
pub fn check_header_value(s: &str) -> (ok: bool)
    ensures
        ok == valid_header_value(s@),
{
    let n = s.unicode_len();
    let mut i: usize = 0;
    while i < n
        invariant
            n == s@.len(),
            i <= n,
            forall|j: int| 0 <= j < i ==> is_header_value_char(#[trigger] s@[j]),
        decreases n - i,
    {
        let c = s.get_char(i);
        if !value_char_ok(c) {
            return false;
        }
        i = i + 1;
    }
    true
}

/// Accepts a header set if and only if every name and value in it is valid
/// on the wire; a bad pair is reported as an `InvalidHeader` failure naming
/// the offending header.
pub fn validate_headers(headers: &Vec<(String, String)>) -> (r: Result<(), FetchError>)
    ensures
        r is Ok <==> headers_valid(headers@),
        r matches Err(e) ==> e.kind_spec() == ErrorKind::InvalidHeader,
{
    let n = headers.len();
    let mut i: usize = 0;
    while i < n
        invariant
            n == headers@.len(),
            i <= n,
            forall|j: int| 0 <= j < i ==> header_pair_valid(#[trigger] headers@[j]),
        decreases n - i,
    {
        let pair = &headers[i];
        if !check_header_name(pair.0.as_str()) || !check_header_value(pair.1.as_str()) {
            let msg = String::from_str("header not valid on the wire: ").concat(pair.0.as_str());
            return Err(FetchError::InvalidHeader(msg));
        }
        i = i + 1;
    }
    Ok(())
}

} // verus!
