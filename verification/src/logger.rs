//! The translation log: when it is written, when it is rotated, and the line
//! recorded for each translation.

use vstd::prelude::*;
use crate::config::AppConfig;
use crate::text::{decimal, decimal_string, join, trim, trimmed};
use crate::translator::TranslationResult;

verus! {

/// Past this size, in bytes, the log is moved aside before writing.
pub const MAX_LOG_BYTES: u64 = 1_000_000;

/// Whether a log of `len` bytes must be rotated.
pub fn rotate_if_needed(len: u64) -> (r: bool)
    ensures
        r == (len > MAX_LOG_BYTES),
{
    len > MAX_LOG_BYTES
}

/// The quoted and escaped form of a string, as its `Debug` impl writes it.
pub uninterp spec fn debug_text(s: Seq<char>) -> Seq<char>;

/// Formats `s` with `<str as Debug>::fmt`. The text is named by `debug_text`;
/// nothing more is stated of the escaping.
#[verifier::external_body]
fn debug_quoted(s: &str) -> (r: String)
    ensures
        r@ == debug_text(s@),
{
    format!("{:?}", s)
}

/// The log line for a translation stamped `ts`.
pub open spec fn log_line_text(
    ts: Seq<char>,
    source: Seq<char>,
    target: Seq<char>,
    engine: Seq<char>,
    ms: u64,
    original: Seq<char>,
    translated: Seq<char>,
) -> Seq<char> {
    "["@ + ts + "] "@ + source + "→"@ + target + " | "@ + engine + " | "@ + decimal(ms as nat)
        + "ms | "@ + debug_text(trimmed(original)) + " -> "@ + debug_text(trimmed(translated))
        + "\n"@
}

/// Whether translations are logged, and if so the line to append for `r`.
pub fn log_translation(config: &AppConfig, r: &TranslationResult, ts: &str) -> (line: Option<String>)
    ensures
        !config.ui.log_translations ==> line is None,
        config.ui.log_translations ==> (line matches Some(l) && l@ == log_line_text(
            ts@,
            config.general.source_language@,
            config.general.target_language@,
            r.engine_used@,
            r.duration_ms,
            r.original@,
            r.translated@,
        )),
{
    if !config.ui.log_translations {
        return None;
    }
    let o = trim(r.original.as_str());
    let t = trim(r.translated.as_str());
    let qo = debug_quoted(o.as_str());
    let qt = debug_quoted(t.as_str());
    let ms = decimal_string(r.duration_ms);
    let mut s = join("[", ts);
    s = join(s.as_str(), "] ");
    s = join(s.as_str(), config.general.source_language.as_str());
    s = join(s.as_str(), "→");
    s = join(s.as_str(), config.general.target_language.as_str());
    s = join(s.as_str(), " | ");
    s = join(s.as_str(), r.engine_used.as_str());
    s = join(s.as_str(), " | ");
    s = join(s.as_str(), ms.as_str());
    s = join(s.as_str(), "ms | ");
    s = join(s.as_str(), qo.as_str());
    s = join(s.as_str(), " -> ");
    s = join(s.as_str(), qt.as_str());
    s = join(s.as_str(), "\n");
    Some(s)
}

} // verus!
