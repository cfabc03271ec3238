//! The Windows Language Pack engine. On-device Windows translation is not
//! wired up yet; for a Simplified Chinese target it answers the greetings of
//! the phrasebook and reports itself unavailable for everything else.

use vstd::prelude::*;
use super::{ErrorView, TranslationEngine, TranslationError, outcome_view};
use crate::text::{same_text, trim, trimmed};
use crate::translator::{normalized, phrase_zh_cn, phrasebook_zh_cn};

verus! {

pub struct WindowsLpEngine;

/// The same engine under the spelling its callers also use.
pub type WindowsLPEngine = WindowsLpEngine;

/// The reason given for every text outside the phrasebook.
pub open spec fn not_implemented() -> Seq<char> {
    "Windows Language Pack translation is not implemented yet on this build"@
}

/// What the engine answers for `text` into `target`.
pub open spec fn windows_lp_outcome(text: Seq<char>, target: Seq<char>) -> Result<Seq<char>, ErrorView> {
    if trimmed(target) == "zh-cn"@ && phrase_zh_cn(normalized(text)) is Some {
        Ok(phrase_zh_cn(normalized(text))->0)
    } else {
        Err(ErrorView::EngineUnavailable(not_implemented()))
    }
}

impl WindowsLpEngine {
    pub fn new() -> Self {
        WindowsLpEngine
    }

    /// Always false: the engine cannot translate free text yet.
    pub fn is_available(&self) -> (r: bool)
        ensures
            !r,
    {
        false
    }

    /// Translates `text` (see `windows_lp_outcome`); the source language is not consulted.
    pub fn translate(&self, text: &str, _source: &str, target: &str) -> (r: Result<
        String,
        TranslationError,
    >)
        ensures
            outcome_view(r) == windows_lp_outcome(text@, target@),
    {
        let t = trim(target);
        if same_text(t.as_str(), "zh-cn") {
            match phrasebook_zh_cn(text) {
                Some(p) => {
                    return Ok(String::from_str(p));
                },
                None => {},
            }
        }
        Err(
            TranslationError::EngineUnavailable(
                String::from_str(
                    "Windows Language Pack translation is not implemented yet on this build",
                ),
            ),
        )
    }
}

impl TranslationEngine for WindowsLpEngine {
    fn name(&self) -> (r: &'static str)
        ensures
            r@ == "Windows LP"@,
    {
        "Windows LP"
    }

    fn requires_api_key(&self) -> (r: bool)
        ensures
            !r,
    {
        false
    }
}

} // verus!
