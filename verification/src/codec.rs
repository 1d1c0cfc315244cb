//! The argument codec: turns the RPC path's raw `args_json` text into the
//! canonical argument value that the execution dispatcher receives. Blank
//! text means the empty argument map; anything else must be valid JSON.

use vstd::prelude::*;
use vstd::string::StrSliceExecFns;
use crate::errors::ArgumentError;

verus! {

/// Whether `s` is text that `serde_json` parses as a JSON value. The
/// parse is a function of the text alone.
pub uninterp spec fn json_wf(s: Seq<char>) -> bool;

/// The diagnostic `serde_json` renders when parsing `s` fails. Like the
/// parse itself it depends on the text alone.
pub uninterp spec fn json_parse_diag(s: Seq<char>) -> Seq<char>;

/// The JSON text `serde_json` writes a value back out as: a function of
/// the value alone.
pub uninterp spec fn json_text_of(v: serde_json::Value) -> Seq<char>;

/// Whitespace as Rust's `char::is_whitespace` has it: the Unicode
/// `White_Space` property.
pub open spec fn is_whitespace_char(c: char) -> bool {
    c == ' ' || c == '\t' || c == '\n' || c == '\u{B}' || c == '\u{C}' || c == '\r'
        || c == '\u{85}' || c == '\u{A0}' || c == '\u{1680}'
        || c == '\u{2000}' || c == '\u{2001}' || c == '\u{2002}' || c == '\u{2003}'
        || c == '\u{2004}' || c == '\u{2005}' || c == '\u{2006}' || c == '\u{2007}'
        || c == '\u{2008}' || c == '\u{2009}' || c == '\u{200A}'
        || c == '\u{2028}' || c == '\u{2029}' || c == '\u{202F}' || c == '\u{205F}'
        || c == '\u{3000}'
}

/// Text that is empty or made of whitespace alone.
pub open spec fn blank(s: Seq<char>) -> bool {
    forall|i: int| 0 <= i < s.len() ==> is_whitespace_char(s[i])
}

/// The canonical argument value handed to the execution dispatcher:
/// the empty argument map, or a parsed JSON value.
pub enum CanonicalArgs {
    EmptyMap,
    Json(serde_json::Value),
}

#[verifier::external_type_specification]
#[verifier::external_body]
pub struct ExValue(serde_json::Value);

/// Relies on `serde_json::from_str::<serde_json::Value>`: it returns `Ok`
/// exactly on valid JSON text, and which side comes back depends on the
/// text alone. A failure is converted to its diagnostic text through
/// `serde_json::Error`'s `Display` impl, itself a function of that error.
#[verifier::external_body]
fn parse_json(s: &str) -> (r: Result<serde_json::Value, String>)
    ensures
        r is Ok <==> json_wf(s@),
        r matches Err(d) ==> d@ == json_parse_diag(s@),
{
    serde_json::from_str(s).map_err(|e| e.to_string())
}

/// Relies on `serde_json::Value`'s `Display` impl: it writes the value
/// back out as JSON text.
#[verifier::external_body]
fn encode_json(v: &serde_json::Value) -> (r: String)
    ensures
        r@ == json_text_of(*v),
{
    v.to_string()
}

fn is_whitespace(c: char) -> (r: bool)
    ensures
        r == is_whitespace_char(c),
{
    c == ' ' || c == '\t' || c == '\n' || c == '\u{B}' || c == '\u{C}' || c == '\r'
        || c == '\u{85}' || c == '\u{A0}' || c == '\u{1680}'
        || c == '\u{2000}' || c == '\u{2001}' || c == '\u{2002}' || c == '\u{2003}'
        || c == '\u{2004}' || c == '\u{2005}' || c == '\u{2006}' || c == '\u{2007}'
        || c == '\u{2008}' || c == '\u{2009}' || c == '\u{200A}'
        || c == '\u{2028}' || c == '\u{2029}' || c == '\u{202F}' || c == '\u{205F}'
        || c == '\u{3000}'
}

/// Whether the text is empty or whitespace alone.
pub fn is_blank(s: &str) -> (r: bool)
    ensures
        r == blank(s@),
{
    let n = s.unicode_len();
    let mut i: usize = 0;
    while i < n
        invariant
            n == s@.len(),
            i <= n,
            forall|j: int| 0 <= j < i ==> is_whitespace_char(s@[j]),
        decreases n - i,
    {
        let c = s.get_char(i);
        if !is_whitespace(c) {
            assert(!is_whitespace_char(s@[i as int]));
            return false;
        }
        i += 1;
    }
    true
}

/// Decode the RPC path's `args_json` text into the canonical argument
/// value. Blank text is the empty argument map, never an error; any other
/// text must parse as JSON, and a parse failure carries the diagnostic.
pub fn decode_arguments(args_json: &str) -> (r: Result<CanonicalArgs, ArgumentError>)
    ensures
        blank(args_json@) ==> (r matches Ok(a) && a is EmptyMap),
        !blank(args_json@) ==> (r is Ok <==> json_wf(args_json@)),
        !blank(args_json@) ==> (r matches Ok(a) ==> a is Json),
        r matches Err(e) ==> (e matches ArgumentError::Malformed(d) && d@ == json_parse_diag(
            args_json@,
        ) && !blank(args_json@) && !json_wf(args_json@)),
{
    if is_blank(args_json) {
        Ok(CanonicalArgs::EmptyMap)
    } else {
        match parse_json(args_json) {
            Ok(v) => Ok(CanonicalArgs::Json(v)),
            Err(d) => Err(ArgumentError::Malformed(d)),
        }
    }
}

/// Write the canonical argument value back out as JSON text: the empty
/// argument map as the empty JSON object, a parsed value through the
/// JSON encoder.
pub fn canonical_text(args: &CanonicalArgs) -> (t: String)
    ensures
        args is EmptyMap ==> t@ == "{}"@,
        args matches CanonicalArgs::Json(v) ==> t@ == json_text_of(*v),
{
    match args {
        CanonicalArgs::EmptyMap => "{}".to_owned(),
        CanonicalArgs::Json(v) => encode_json(v),
    }
}

} // verus!
