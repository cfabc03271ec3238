//! Clipboard text: the format used and how long reads keep retrying.

use vstd::prelude::*;
use crate::text::{to_wide, wide};

verus! {

/// `CF_UNICODETEXT`.
pub const CF_UNICODETEXT: u32 = 13;

/// How long opening the clipboard or saving it keeps retrying, in ms.
pub const OPEN_TIMEOUT_MS: u64 = 250;

/// The pause between two attempts to open or save the clipboard, in ms.
pub const RETRY_PAUSE_MS: u64 = 10;

/// The pause between two reads of copied text, in ms.
pub const READ_PAUSE_MS: u64 = 15;

/// Whether a failed attempt may be made again, `elapsed_ms` after the first.
pub fn retry_allowed(elapsed_ms: u64, timeout_ms: u64) -> (r: bool)
    ensures
        r == (elapsed_ms < timeout_ms),
{
    elapsed_ms < timeout_ms
}

/// What a read of copied text gives: the text, once it is not empty; the
/// empty text once `max_wait_ms` have passed; otherwise `None`, to read again.
pub open spec fn read_retry(text: Seq<char>, elapsed_ms: u64, max_wait_ms: u64) -> Option<Seq<char>> {
    if text.len() > 0 {
        Some(text)
    } else if elapsed_ms >= max_wait_ms {
        Some(Seq::empty())
    } else {
        None
    }
}

/// Decides whether `read_text_retry` is done after a read that gave `text`.
pub fn read_text_retry(text: String, elapsed_ms: u64, max_wait_ms: u64) -> (r: Option<String>)
    ensures
        match r {
            Some(s) => read_retry(text@, elapsed_ms, max_wait_ms) == Some(s@),
            None => read_retry(text@, elapsed_ms, max_wait_ms) is None,
        },
{
    if text.as_str().unicode_len() > 0 {
        Some(text)
    } else if elapsed_ms >= max_wait_ms {
        Some(String::new())
    } else {
        None
    }
}

/// The clipboard form of `text`: UTF-16 with a final NUL.
pub fn text_units(text: &str) -> (r: Vec<u16>)
    ensures
        r@ == wide(text@),
{
    to_wide(text)
}

} // verus!
