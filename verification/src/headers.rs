//! Parsing of `name: value` header arguments, with the rules that the HTTP
//! types enforce: a header name is a non-empty run of token characters, no
//! longer than the transport's cap, and is normalized to ASCII lowercase; a
//! header value holds no control character other than the horizontal tab.

use vstd::prelude::*;
use vstd::string::StrSliceExecFns;
use crate::text::ascii_lower;
use crate::text::colon_prefix_len;
use crate::text::lemma_colon_prefix;
use crate::text::spec_ascii_lower;
use crate::text::spec_trim;
use crate::text::trim_str;

verus! {

/// Why a header argument was rejected.
#[derive(Clone, Copy, PartialEq, Eq, Structural, Debug)]
pub enum HeaderParserError {
    /// The name part holds a character outside the token set, is empty, or
    /// is longer than the transport's cap.
    BadHeaderName,
    /// The value part holds a control character other than a tab.
    BadHeaderValue,
    /// The argument has no `:` separator.
    MissingColonSeparator,
}

/// A character allowed in a header name: the HTTP token set.
pub open spec fn is_header_name_char(c: char) -> bool {
    let n = c as u32;
    (97 <= n && n <= 122)  // a-z
     || (65 <= n && n <= 90)  // A-Z
     || (48 <= n && n <= 57)  // 0-9
     || c == '!' || c == '#' || c == '$' || c == '%' || c == '&' || c == '\'' || c == '*' || c
        == '+' || c == '-' || c == '.' || c == '^' || c == '_' || c == '`' || c == '|' || c == '~'
}

/// A character allowed in a header value: a tab, or anything that is neither
/// an ASCII control character nor delete.
pub open spec fn is_header_value_char(c: char) -> bool {
    c == '\t' || (32 <= c as u32 && c as u32 != 127)
}

/// The longest header name the HTTP types accept, in bytes; header names are
/// ASCII, so bytes and characters coincide.
pub const MAX_HEADER_NAME_LEN: usize = 65535;

/// A valid header name: non-empty, no longer than the transport's cap, token
/// characters only.
pub open spec fn valid_header_name(s: Seq<char>) -> bool {
    0 < s.len() <= MAX_HEADER_NAME_LEN && forall|i: int|
        0 <= i < s.len() ==> is_header_name_char(s[i])
}

/// A valid header value: no control character other than a tab.
pub open spec fn valid_header_value(s: Seq<char>) -> bool {
    forall|i: int| 0 <= i < s.len() ==> is_header_value_char(s[i])
}

/// What parsing a header argument yields: the trimmed, ASCII-lowercased name
/// and the trimmed value on either side of the first colon, provided both are
/// valid; otherwise the error naming the first part that is not. With no
/// colon at all, the argument is rejected outright.
pub open spec fn spec_parse_header(s: Seq<char>) -> Result<
    (Seq<char>, Seq<char>),
    HeaderParserError,
> {
    let i = colon_prefix_len(s) as int;
    if i == s.len() {
        Err(HeaderParserError::MissingColonSeparator)
    } else {
        let name = spec_ascii_lower(spec_trim(s.take(i)));
        let value = spec_trim(s.skip(i + 1));
        if !valid_header_name(name) {
            Err(HeaderParserError::BadHeaderName)
        } else if !valid_header_value(value) {
            Err(HeaderParserError::BadHeaderValue)
        } else {
            Ok((name, value))
        }
    }
}

/// One header to attach to every request: a validated name and value.
#[derive(Clone, Debug)]
pub struct HeaderArg {
    /// The header name, trimmed and normalized to ASCII lowercase.
    pub name: String,
    /// The header value, trimmed.
    pub value: String,
}

/// Whether every character of `s` is a header-name token character.
fn check_header_name(s: &str) -> (r: bool)
    ensures
        r == valid_header_name(s@),
{
    let len = s.unicode_len();
    if len == 0 || len > MAX_HEADER_NAME_LEN {
        return false;
    }
    let mut i: usize = 0;
    while i < len
        invariant
            len == s@.len(),
            0 < len <= MAX_HEADER_NAME_LEN,
            i <= len,
            forall|j: int| 0 <= j < i ==> is_header_name_char(s@[j]),
        decreases len - i,
    {
        let c = s.get_char(i);
        let n = c as u32;
        let ok = (97 <= n && n <= 122) || (65 <= n && n <= 90) || (48 <= n && n <= 57) || c == '!'
            || c == '#' || c == '$' || c == '%' || c == '&' || c == '\'' || c == '*' || c == '+'
            || c == '-' || c == '.' || c == '^' || c == '_' || c == '`' || c == '|' || c == '~';
        if !ok {
            return false;
        }
        i = i + 1;
    }
    true
}

/// Whether every character of `s` is allowed in a header value.
fn check_header_value(s: &str) -> (r: bool)
    ensures
        r == valid_header_value(s@),
{
    let len = s.unicode_len();
    let mut i: usize = 0;
    while i < len
        invariant
            len == s@.len(),
            i <= len,
            forall|j: int| 0 <= j < i ==> is_header_value_char(s@[j]),
        decreases len - i,
    {
        let c = s.get_char(i);
        let n = c as u32;
        if !(c == '\t' || (32 <= n && n != 127)) {
            return false;
        }
        i = i + 1;
    }
    true
}

impl HeaderArg {
    /// Parses one `name: value` argument: the name and value on either side
    /// of the first colon, both trimmed of whitespace, the name normalized to
    /// ASCII lowercase, both checked against the header rules.
    pub fn parse(s: &str) -> (r: Result<HeaderArg, HeaderParserError>)
        ensures
            r matches Ok(h) ==> spec_parse_header(s@) == Ok::<_, HeaderParserError>(
                (h.name@, h.value@),
            ),
            r matches Err(e) ==> spec_parse_header(s@) == Err::<(Seq<char>, Seq<char>), _>(e),
    {
        let len = s.unicode_len();
        let mut i: usize = 0;
        loop
            invariant
                len == s@.len(),
                i <= len,
                forall|j: int| 0 <= j < i ==> s@[j] != ':',
            ensures
                i <= len,
                forall|j: int| 0 <= j < i ==> s@[j] != ':',
                i == len || s@[i as int] == ':',
            decreases len - i,
        {
            if i >= len {
                break;
            }
            if s.get_char(i) == ':' {
                break;
            }
            i = i + 1;
        }
        proof {
            lemma_colon_prefix(s@, i as nat);
        }
        if i >= len {
            return Err(HeaderParserError::MissingColonSeparator);
        }
        let raw_name = s.substring_char(0, i);
        let raw_value = s.substring_char(i + 1, len);
        let trimmed_name = trim_str(raw_name);
        let name = ascii_lower(trimmed_name.as_str());
        let value = trim_str(raw_value);
        if !check_header_name(name.as_str()) {
            return Err(HeaderParserError::BadHeaderName);
        }
        if !check_header_value(value.as_str()) {
            return Err(HeaderParserError::BadHeaderValue);
        }
        Ok(HeaderArg { name, value })
    }
}

} // verus!
