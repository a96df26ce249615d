//! What the configuration supplies: the work directory, the verbosity of
//! tracing, and the names under which target-specific overrides are looked up.
//! The settings themselves are read by the caller and handed in as they are.

use vstd::prelude::*;
use vstd::string::StringExecFns;
use crate::target::CrossCompilationTarget;
use crate::text::{lossy, lossy_text};

verus! {

/// How much is traced.
#[derive(Clone, Copy, Debug, PartialEq, Eq, Structural)]
pub enum TracingLevel {
    Error,
    Warn,
    Info,
    Debug,
    Trace,
}

/// The level with a number from one to five, the gravest first.
pub open spec fn numbered_level(n: int) -> Option<TracingLevel> {
    if n == 1 {
        Some(TracingLevel::Error)
    } else if n == 2 {
        Some(TracingLevel::Warn)
    } else if n == 3 {
        Some(TracingLevel::Info)
    } else if n == 4 {
        Some(TracingLevel::Debug)
    } else if n == 5 {
        Some(TracingLevel::Trace)
    } else {
        None
    }
}

/// The level that a text names by its number: an optional plus sign, any
/// number of zeros, and one digit from one to five.
pub open spec fn level_by_number(s: Seq<char>) -> Option<TracingLevel> {
    let digits = if s.len() > 0 && s[0] == '+' {
        s.skip(1)
    } else {
        s
    };
    if digits.len() >= 1 && forall|i: int| 0 <= i < digits.len() - 1 ==> digits[i] == '0' {
        numbered_level(digits.last() as u32 - 0x30)
    } else {
        None
    }
}

/// Whether a text reads as a word of small letters, with no regard to the
/// case of its own letters.
pub open spec fn reads_as(s: Seq<char>, word: Seq<char>) -> bool {
    s.len() == word.len() && forall|i: int|
        0 <= i < s.len() ==> s[i] == #[trigger] word[i] || (0x41 <= s[i] as u32 <= 0x5a && s[i] as u32
            + 0x20 == word[i] as u32)
}

/// The level that a text names by its name.
pub open spec fn level_by_name(s: Seq<char>) -> Option<TracingLevel> {
    if reads_as(s, "error"@) {
        Some(TracingLevel::Error)
    } else if reads_as(s, "warn"@) {
        Some(TracingLevel::Warn)
    } else if reads_as(s, "info"@) {
        Some(TracingLevel::Info)
    } else if reads_as(s, "debug"@) {
        Some(TracingLevel::Debug)
    } else if reads_as(s, "trace"@) {
        Some(TracingLevel::Trace)
    } else {
        None
    }
}

/// The level that a text names, if it names one: by its number, or else by
/// its name in letters of either case.
pub open spec fn parsed_level(s: Seq<char>) -> Option<TracingLevel> {
    match level_by_number(s) {
        Some(level) => Some(level),
        None => level_by_name(s),
    }
}

/// Calls `Level::from_str` of the tracing crate. Trusted: the call succeeds
/// on a text that is a number from one to five, as the standard library reads
/// an unsigned number, and on the five names of the levels in letters of
/// either case, as [`parsed_level`] says, and on no other text.
#[verifier::external_body]
fn parse_level(s: &str) -> (r: Option<TracingLevel>)
    ensures
        r == parsed_level(s@),
{
    let level = <tracing::Level as std::str::FromStr>::from_str(s).ok()?;
    Some(
        if level == tracing::Level::ERROR {
            TracingLevel::Error
        } else if level == tracing::Level::WARN {
            TracingLevel::Warn
        } else if level == tracing::Level::INFO {
            TracingLevel::Info
        } else if level == tracing::Level::DEBUG {
            TracingLevel::Debug
        } else {
            TracingLevel::Trace
        },
    )
}

/// The directory in which crates are laid out and built. It must be set.
pub fn work_dir(setting: Option<&str>) -> (dir: String)
    requires
        setting is Some,
    ensures
        dir@ == setting->Some_0@,
{
    match setting {
        Some(dir) => String::from_str(dir),
        None => String::new(),
    }
}

/// The level that a setting asks for: the one it names, or informational
/// where it is not set.
pub open spec fn level_of(setting: Option<&str>) -> Option<TracingLevel> {
    match setting {
        Some(s) => parsed_level(s@),
        None => Some(TracingLevel::Info),
    }
}

/// The level at which to trace. A setting, where there is one, must name a
/// level.
pub fn tracing_level(setting: Option<&str>) -> (level: TracingLevel)
    requires
        level_of(setting) is Some,
    ensures
        Some(level) == level_of(setting),
{
    match setting {
        Some(s) => match parse_level(s) {
            Some(level) => level,
            None => TracingLevel::Info,
        },
        None => TracingLevel::Info,
    }
}

/// The level at which to trace, or `None` where the setting names no level.
pub fn try_tracing_level(setting: Option<&str>) -> (level: Option<TracingLevel>)
    ensures
        level == level_of(setting),
{
    match setting {
        Some(s) => match parse_level(s) {
            Some(_) => Some(tracing_level(setting)),
            None => None,
        },
        None => Some(tracing_level(setting)),
    }
}

/// The name of the setting that overrides the linker for a target.
pub fn linker_setting(target: CrossCompilationTarget) -> (name: String)
    ensures
        name@ == "plrust."@ + target.name() + "_linker"@,
{
    let mut name = String::from_str("plrust.");
    name.append(target.as_str());
    name.append("_linker");
    name
}

/// The name of the setting that overrides the path of the type bindings for a
/// target.
pub fn pgx_bindings_setting(target: CrossCompilationTarget) -> (name: String)
    ensures
        name@ == "plrust."@ + target.name() + "_pgx_bindings_path"@,
{
    let mut name = String::from_str("plrust.");
    name.append(target.as_str());
    name.append("_pgx_bindings_path");
    name
}

/// The text of an override as the configuration holds it: none where the
/// setting is missing, which is no error, else its bytes read as text, with
/// every malformed part replaced.
pub fn override_text(value: Option<&Vec<u8>>) -> (text: Option<String>)
    ensures
        match value {
            Some(bytes) => text is Some && text->Some_0@ == lossy_text(bytes@),
            None => text is None,
        },
{
    match value {
        Some(bytes) => Some(lossy(bytes)),
        None => None,
    }
}

} // verus!
