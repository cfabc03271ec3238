//! The Google Translate web engine: building the request and reading the
//! reply. The request itself is sent by the caller.

use vstd::prelude::*;
use super::{
    ErrorView, HttpReply, HttpRequest, RequestView, TranslationEngine, TranslationError,
    outcome_view, pair, reply_view, web_outcome, web_result,
};
use super::deepl::{req_view, res_str_view};
use crate::text::{same_text, trim, trimmed};

verus! {

pub struct GoogleEngine {
    api_key: String,
}

/// One translation in a Google reply.
#[derive(Debug, Clone)]
pub struct GoogleTranslation {
    pub translated_text: String,
}

/// The `data` member of a Google reply.
#[derive(Debug, Clone)]
pub struct GoogleData {
    pub translations: Vec<GoogleTranslation>,
}

/// The JSON body of a Google reply.
#[derive(Debug, Clone)]
pub struct GoogleResponse {
    pub data: GoogleData,
}

/// The service's endpoint.
pub open spec fn google_endpoint() -> Seq<char> {
    "https://translation.googleapis.com/language/translate/v2"@
}

/// Google's code for a language.
pub open spec fn google_lang(lang: Seq<char>) -> Result<Seq<char>, ErrorView> {
    if lang == "pt"@ {
        Ok("pt"@)
    } else if lang == "en"@ {
        Ok("en"@)
    } else if lang == "es"@ {
        Ok("es"@)
    } else if lang == "zh-cn"@ {
        Ok("zh-CN"@)
    } else {
        Err(ErrorView::LanguageNotSupported(lang))
    }
}

/// The request Google is sent for `text`, or why none is sent.
pub open spec fn google_request(
    key: Seq<char>,
    text: Seq<char>,
    source: Seq<char>,
    target: Seq<char>,
) -> Result<RequestView, ErrorView> {
    let k = trimmed(key);
    if k.len() == 0 {
        Err(ErrorView::ApiKeyMissing)
    } else {
        match google_lang(source) {
            Err(e) => Err(e),
            Ok(s) => match google_lang(target) {
                Err(e) => Err(e),
                Ok(t) => Ok(
                    RequestView {
                        url: google_endpoint(),
                        query: seq![("key"@, k)],
                        form: seq![("q"@, text), ("source"@, s), ("target"@, t), ("format"@, "text"@)],
                    },
                ),
            },
        }
    }
}

/// The first translation's text in a parsed reply, if any.
pub open spec fn google_first(parsed: Option<GoogleResponse>) -> Option<Option<Seq<char>>> {
    match parsed {
        None => None,
        Some(p) => if p.data.translations@.len() > 0 {
            Some(Some(p.data.translations@[0].translated_text@))
        } else {
            Some(None)
        },
    }
}

impl GoogleEngine {
    /// The configured key.
    pub closed spec fn key(&self) -> Seq<char> {
        self.api_key@
    }

    pub fn new(api_key: String) -> (r: Self)
        ensures
            r.key() == api_key@,
    {
        GoogleEngine { api_key }
    }

    fn map_lang(lang: &str) -> (r: Result<&'static str, TranslationError>)
        ensures
            res_str_view(r) == google_lang(lang@),
    {
        if same_text(lang, "pt") {
            Ok("pt")
        } else if same_text(lang, "en") {
            Ok("en")
        } else if same_text(lang, "es") {
            Ok("es")
        } else if same_text(lang, "zh-cn") {
            Ok("zh-CN")
        } else {
            Err(TranslationError::LanguageNotSupported(String::from_str(lang)))
        }
    }

    /// Builds the request that translates `text` from `source` into `target`.
    pub fn prepare(&self, text: &str, source: &str, target: &str) -> (r: Result<
        HttpRequest,
        TranslationError,
    >)
        ensures
            req_view(r) == google_request(self.key(), text@, source@, target@),
    {
        let key = trim(self.api_key.as_str());
        if key.as_str().unicode_len() == 0 {
            return Err(TranslationError::ApiKeyMissing);
        }
        let s = match Self::map_lang(source) {
            Ok(s) => s,
            Err(e) => {
                return Err(e);
            },
        };
        let t = match Self::map_lang(target) {
            Ok(t) => t,
            Err(e) => {
                return Err(e);
            },
        };
        let mut query: Vec<(String, String)> = Vec::new();
        query.push(pair("key", key.as_str()));
        let mut form: Vec<(String, String)> = Vec::new();
        form.push(pair("q", text));
        form.push(pair("source", s));
        form.push(pair("target", t));
        form.push(pair("format", "text"));
        let req = HttpRequest {
            url: String::from_str("https://translation.googleapis.com/language/translate/v2"),
            query,
            form,
        };
        proof {
            assert(req.query.deep_view() =~= seq![("key"@, key@)]);
            assert(req.form.deep_view() =~= seq![
                ("q"@, text@),
                ("source"@, s@),
                ("target"@, t@),
                ("format"@, "text"@),
            ]);
        }
        Ok(req)
    }

    /// Reads Google's reply: `reply` is the status and body or the transport
    /// error text, `parsed` the body read as a Google response (`None` when it
    /// is not one).
    pub fn finish(reply: Result<HttpReply, String>, parsed: Option<GoogleResponse>) -> (r: Result<
        String,
        TranslationError,
    >)
        ensures
            outcome_view(r) == web_outcome("Google"@, reply_view(reply), google_first(parsed)),
    {
        let first = match parsed {
            None => None,
            Some(p) => {
                if p.data.translations.len() > 0 {
                    Some(Some(p.data.translations[0].translated_text.clone()))
                } else {
                    Some(None)
                }
            },
        };
        web_result("Google", reply, first)
    }

    /// Always true: Google is reached over the network.
    pub fn is_available(&self) -> (r: bool)
        ensures
            r,
    {
        true
    }
}

impl TranslationEngine for GoogleEngine {
    fn name(&self) -> (r: &'static str)
        ensures
            r@ == "Google Translate"@,
    {
        "Google Translate"
    }

    fn requires_api_key(&self) -> (r: bool)
        ensures
            r,
    {
        true
    }
}


/// Google's code for one of the supported settings: the setting itself, but
/// zh-CN for zh-cn.
pub open spec fn google_code(lang: Seq<char>) -> Seq<char> {
    if lang == "zh-cn"@ {
        "zh-CN"@
    } else {
        lang
    }
}

/// Whether a setting is one of pt, en, es and zh-cn.
pub open spec fn supported_by_google(lang: Seq<char>) -> bool {
    lang == "pt"@ || lang == "en"@ || lang == "es"@ || lang == "zh-cn"@
}

/// What Google is sent. With a key that is not blank and a source and target
/// among pt, en, es and zh-cn, a request is built: the v2 endpoint, the
/// trimmed key in the query, and the form q (the text), source and target
/// (each its own code, zh-CN for zh-cn) and format "text". A source outside
/// those is refused naming it; so is such a target when the source is
/// supported. A blank key is refused as missing.
pub proof fn law_google_request(key: Seq<char>, text: Seq<char>, src: Seq<char>, tgt: Seq<char>)
    ensures
        trimmed(key).len() == 0 ==> google_request(key, text, src, tgt) == Err::<RequestView, ErrorView>(
            ErrorView::ApiKeyMissing,
        ),
        (trimmed(key).len() > 0 && supported_by_google(src) && supported_by_google(tgt)) ==> google_request(
            key,
            text,
            src,
            tgt,
        ) == Ok::<RequestView, ErrorView>(
            RequestView {
                url: "https://translation.googleapis.com/language/translate/v2"@,
                query: seq![("key"@, trimmed(key))],
                form: seq![
                    ("q"@, text),
                    ("source"@, google_code(src)),
                    ("target"@, google_code(tgt)),
                    ("format"@, "text"@),
                ],
            },
        ),
        (trimmed(key).len() > 0 && !supported_by_google(src)) ==> google_request(key, text, src, tgt)
            == Err::<RequestView, ErrorView>(ErrorView::LanguageNotSupported(src)),
        (trimmed(key).len() > 0 && supported_by_google(src) && !supported_by_google(tgt)) ==> google_request(
            key,
            text,
            src,
            tgt,
        ) == Err::<RequestView, ErrorView>(ErrorView::LanguageNotSupported(tgt)),
{
    crate::engine::lemma_language_settings_distinct();
}
} // verus!
