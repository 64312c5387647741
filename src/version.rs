//! Exact version pins: validation of the `MAJOR.MINOR.PATCH` form.

use vstd::prelude::*;
use crate::resolver::RippleExtension;

verus! {

/// An ASCII decimal digit.
pub open spec fn is_digit(c: char) -> bool {
    '0' <= c && c <= '9'
}

/// Number of `.` characters in `s`.
pub open spec fn dot_count(s: Seq<char>) -> nat
    decreases s.len(),
{
    if s.len() == 0 {
        0
    } else {
        dot_count(s.drop_last()) + if s.last() == '.' { 1nat } else { 0nat }
    }
}

/// `s` is three non-empty runs of ASCII digits separated by single dots.
pub open spec fn is_exact_version(s: Seq<char>) -> bool {
    &&& s.len() > 0
    &&& forall|k: int| 0 <= k < s.len() ==> is_digit(#[trigger] s[k]) || s[k] == '.'
    &&& is_digit(s[0])
    &&& is_digit(s.last())
    &&& forall|k: int| 0 <= k < s.len() - 1 ==> !(#[trigger] s[k] == '.' && s[k + 1] == '.')
    &&& dot_count(s) == 2
}

/// Package whose version is pinned.
pub const PACKAGE_NAME: &'static str = "@ripple-ts/language-server";

/// A character with the Unicode `White_Space` property.
pub open spec fn is_white_space(c: char) -> bool {
    ('\u{9}' <= c && c <= '\u{d}') || c == ' ' || c == '\u{85}' || c == '\u{a0}' || c == '\u{1680}'
        || ('\u{2000}' <= c && c <= '\u{200a}') || c == '\u{2028}' || c == '\u{2029}'
        || c == '\u{202f}' || c == '\u{205f}' || c == '\u{3000}'
}

/// `s` without its leading white space.
pub open spec fn trim_start_spec(s: Seq<char>) -> Seq<char>
    decreases s.len(),
{
    if s.len() > 0 && is_white_space(s[0]) {
        trim_start_spec(s.drop_first())
    } else {
        s
    }
}

/// `s` without its trailing white space.
pub open spec fn trim_end_spec(s: Seq<char>) -> Seq<char>
    decreases s.len(),
{
    if s.len() > 0 && is_white_space(s.last()) {
        trim_end_spec(s.drop_last())
    } else {
        s
    }
}

/// `s` with leading and trailing white space removed.
pub open spec fn trim_of(s: Seq<char>) -> Seq<char> {
    trim_end_spec(trim_start_spec(s))
}

/// Relies on `str::trim`: removes leading and trailing characters with the
/// Unicode `White_Space` property.
#[verifier::external_body]
pub(crate) fn trim(s: &str) -> (r: String)
    ensures
        r@ == trim_of(s@),
{
    s.trim().to_string()
}

/// Why a version pin was refused.
#[derive(Debug)]
pub enum ConfigError {
    /// The pin is absent or blank.
    MissingPin,
    /// The pin is present but is not an exact `MAJOR.MINOR.PATCH` triple.
    NotExactVersion(String),
}

pub open spec fn missing_pin_message() -> Seq<char> {
    "Add config.@ripple-ts/language-server to package.json to pin the language server version."@
}

pub open spec fn not_exact_message(pin: Seq<char>) -> Seq<char> {
    "config.@ripple-ts/language-server in package.json must be an exact semver (e.g. 0.2.0); got '"@
        + pin + "'"@
}

impl ConfigError {
    pub open spec fn message_spec(&self) -> Seq<char> {
        match self {
            ConfigError::MissingPin => missing_pin_message(),
            ConfigError::NotExactVersion(pin) => not_exact_message(pin@),
        }
    }

    /// The human-readable message shown to the user.
    pub fn message(&self) -> (r: String)
        ensures
            r@ == self.message_spec(),
    {
        match self {
            ConfigError::MissingPin => String::from_str(
                "Add config.@ripple-ts/language-server to package.json to pin the language server version.",
            ),
            ConfigError::NotExactVersion(pin) => {
                let head = String::from_str(
                    "config.@ripple-ts/language-server in package.json must be an exact semver (e.g. 0.2.0); got '",
                );
                head.concat(pin.as_str()).concat("'")
            },
        }
    }
}

/// The outcome of checking an already trimmed pin.
pub open spec fn pin_outcome(trimmed: Option<Seq<char>>) -> Result<Seq<char>, Option<Seq<char>>> {
    match trimmed {
        None => Err(None),
        Some(t) => if t.len() == 0 {
            Err(None)
        } else if !is_exact_version(t) {
            Err(Some(t))
        } else {
            Ok(t)
        },
    }
}

/// Model of a pin check's result: `Err(None)` for a missing pin,
/// `Err(Some(pin))` for an inexact one.
pub open spec fn pin_result_model(r: Result<String, ConfigError>) -> Result<
    Seq<char>,
    Option<Seq<char>>,
> {
    match r {
        Ok(v) => Ok(v@),
        Err(ConfigError::MissingPin) => Err(None),
        Err(ConfigError::NotExactVersion(p)) => Err(Some(p@)),
    }
}

/// Checks an already trimmed pin: blank or absent is a missing pin, anything
/// but an exact triple is refused, and an exact triple is accepted as is.
pub fn validate_pin(trimmed: Option<&str>) -> (r: Result<String, ConfigError>)
    ensures
        pin_result_model(r) == pin_outcome(
            match trimmed {
                Some(t) => Some(t@),
                None => None,
            },
        ),
{
    match trimmed {
        None => Err(ConfigError::MissingPin),
        Some(t) => {
            if t.unicode_len() == 0 {
                Err(ConfigError::MissingPin)
            } else if !RippleExtension::is_exact_semver(t) {
                Err(ConfigError::NotExactVersion(String::from_str(t)))
            } else {
                Ok(String::from_str(t))
            }
        },
    }
}

} // verus!
