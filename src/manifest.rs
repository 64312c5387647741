//! Reading the version pin out of the extension's bundled `package.json`.

use vstd::prelude::*;
use zed_extension_api::serde_json::Value;

verus! {

/// `text` is one well-formed JSON document.
pub uninterp spec fn json_parses(text: Seq<char>) -> bool;

/// The string at member `inner` of member `outer` of the JSON document
/// `text`; `None` when either member is absent or the value is not a string.
pub uninterp spec fn json_str_member(text: Seq<char>, outer: Seq<char>, inner: Seq<char>) -> Option<
    Seq<char>,
>;

/// Relies on `serde_json::from_str` to parse `text` (a failure rendered as its
/// display text), then on `Value::get` for `outer` and `inner` and on
/// `Value::as_str` for the value found there.
#[verifier::external_body]
fn json_str_at(text: &str, outer: &str, inner: &str) -> (r: Result<Option<String>, String>)
    ensures
        r.is_ok() == json_parses(text@),
        r matches Ok(o) ==> json_str_member(text@, outer@, inner@) == match o {
            Some(s) => Some(s@),
            None => None::<Seq<char>>,
        },
{
    match zed_extension_api::serde_json::from_str::<Value>(text) {
        Err(e) => Err(e.to_string()),
        Ok(doc) => Ok(doc.get(outer).and_then(|v| v.get(inner)).and_then(|v| v.as_str()).map(|s| s.to_string())),
    }
}

/// Prefix of the message given when the manifest is not valid JSON.
pub open spec fn parse_failure_prefix() -> Seq<char> {
    "Failed to parse package.json embedded in extension: "@
}

/// The manifest's pin field, `config."@ripple-ts/language-server"`.
pub open spec fn manifest_pin_spec(text: Seq<char>) -> Option<Seq<char>> {
    json_str_member(text, "config"@, "@ripple-ts/language-server"@)
}

/// The raw (untrimmed) text at `config."@ripple-ts/language-server"` of the
/// manifest `text`: `Ok(None)` when the field is absent or not a string, and
/// `Err` with a message when `text` is not JSON.
pub fn read_manifest_pin(text: &str) -> (r: Result<Option<String>, String>)
    ensures
        r.is_ok() == json_parses(text@),
        r matches Ok(o) ==> manifest_pin_spec(text@) == match o {
            Some(s) => Some(s@),
            None => None::<Seq<char>>,
        },
        r matches Err(m) ==> exists|detail: Seq<char>| m@ == parse_failure_prefix() + detail,
{
    match json_str_at(text, "config", "@ripple-ts/language-server") {
        Err(detail) => {
            let m = String::from_str("Failed to parse package.json embedded in extension: ").concat(
                detail.as_str(),
            );
            assert(m@ == parse_failure_prefix() + detail@);
            Err(m)
        },
        Ok(pin) => Ok(pin),
    }
}

} // verus!
