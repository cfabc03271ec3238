//! Toast notifications: whether one is shown, and its texts.

use vstd::prelude::*;
use crate::config::AppConfig;
use crate::text::{decimal, decimal_string, join, trim, trimmed};
use crate::translator::TranslationResult;

verus! {

/// The texts of a toast: a title and one or two lines.
#[derive(Debug, Clone)]
pub struct Toast {
    pub title: String,
    pub text1: String,
    pub text2: Option<String>,
}

/// The title of a translation toast.
pub open spec fn toast_title() -> Seq<char> {
    "TōngYì 通译"@
}

/// The title of an error toast.
pub open spec fn error_title() -> Seq<char> {
    "TōngYì 通译 — Error"@
}

/// The main line of a translation toast: the original and the translation,
/// or only the translation.
pub open spec fn body_line(show_original: bool, original: Seq<char>, translated: Seq<char>) -> Seq<char> {
    if show_original {
        trimmed(original) + " → "@ + trimmed(translated)
    } else {
        trimmed(translated)
    }
}

/// The second line of a translation toast.
pub open spec fn footer_line(engine: Seq<char>, ms: u64) -> Seq<char> {
    "Engine: "@ + engine + " • "@ + decimal(ms as nat) + "ms"@
}

/// The toast for a finished translation; `None` when notifications are off.
pub fn show_translation(config: &AppConfig, r: &TranslationResult) -> (t: Option<Toast>)
    ensures
        !config.ui.show_notifications ==> t is None,
        config.ui.show_notifications ==> (t matches Some(x) && x.title@ == toast_title()
            && x.text1@ == body_line(
            config.ui.show_original_in_notification,
            r.original@,
            r.translated@,
        ) && (x.text2 matches Some(f) && f@ == footer_line(r.engine_used@, r.duration_ms))),
{
    if !config.ui.show_notifications {
        return None;
    }
    let translated = trim(r.translated.as_str());
    let body = if config.ui.show_original_in_notification {
        let o = trim(r.original.as_str());
        let a = join(o.as_str(), " → ");
        join(a.as_str(), translated.as_str())
    } else {
        translated
    };
    let ms = decimal_string(r.duration_ms);
    let f1 = join("Engine: ", r.engine_used.as_str());
    let f2 = join(f1.as_str(), " • ");
    let f3 = join(f2.as_str(), ms.as_str());
    let footer = join(f3.as_str(), "ms");
    Some(Toast { title: String::from_str("TōngYì 通译"), text1: body, text2: Some(footer) })
}

/// The toast for an error; `None` when notifications are off.
pub fn show_error(config: &AppConfig, msg: &str) -> (t: Option<Toast>)
    ensures
        !config.ui.show_notifications ==> t is None,
        config.ui.show_notifications ==> (t matches Some(x) && x.title@ == error_title()
            && x.text1@ == msg@ && x.text2 is None),
{
    if !config.ui.show_notifications {
        return None;
    }
    Some(
        Toast {
            title: String::from_str("TōngYì 通译 — Error"),
            text1: String::from_str(msg),
            text2: None,
        },
    )
}

} // verus!
