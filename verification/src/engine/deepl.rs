//! The DeepL web engine: building the form request and reading the reply.
//! The request itself is sent by the caller.

use vstd::prelude::*;
use super::{
    ErrorView, HttpReply, HttpRequest, RequestView, TranslationEngine, TranslationError,
    outcome_view, pair, reply_view, web_outcome, web_result,
};
use crate::text::{contains_text, has_infix, same_text, trim, trimmed};

verus! {

pub struct DeepLEngine {
    api_key: String,
}

/// One translation in a DeepL reply.
#[derive(Debug, Clone)]
pub struct DeepLTranslation {
    pub text: String,
}

/// The JSON body of a DeepL reply.
#[derive(Debug, Clone)]
pub struct DeepLResponse {
    pub translations: Vec<DeepLTranslation>,
}

/// The endpoint for a key: free-tier keys end in ":fx" and go to the free API.
pub open spec fn deepl_endpoint(key: Seq<char>) -> Seq<char> {
    if has_infix(key, ":fx"@) {
        "https://api-free.deepl.com/v2/translate"@
    } else {
        "https://api.deepl.com/v2/translate"@
    }
}

/// DeepL's code for a source language; `None` lets DeepL detect it.
pub open spec fn deepl_source(src: Seq<char>) -> Option<Seq<char>> {
    if src == "pt"@ {
        Some("PT"@)
    } else if src == "en"@ {
        Some("EN"@)
    } else if src == "es"@ {
        Some("ES"@)
    } else {
        None
    }
}

/// DeepL's code for a target language.
pub open spec fn deepl_target(tgt: Seq<char>) -> Result<Seq<char>, ErrorView> {
    if tgt == "zh-cn"@ {
        Ok("ZH"@)
    } else {
        Err(ErrorView::LanguageNotSupported(tgt))
    }
}

/// The request DeepL is sent for `text`, or why none is sent.
pub open spec fn deepl_request(
    key: Seq<char>,
    text: Seq<char>,
    source: Seq<char>,
    target: Seq<char>,
) -> Result<RequestView, ErrorView> {
    let k = trimmed(key);
    if k.len() == 0 {
        Err(ErrorView::ApiKeyMissing)
    } else {
        match deepl_target(target) {
            Err(e) => Err(e),
            Ok(t) => {
                let base = seq![("auth_key"@, k), ("text"@, text), ("target_lang"@, t)];
                let form = match deepl_source(source) {
                    Some(s) => base.push(("source_lang"@, s)),
                    None => base,
                };
                Ok(RequestView { url: deepl_endpoint(key), query: Seq::empty(), form })
            },
        }
    }
}

/// The first translation's text in a parsed reply, if any.
pub open spec fn deepl_first(parsed: Option<DeepLResponse>) -> Option<Option<Seq<char>>> {
    match parsed {
        None => None,
        Some(p) => if p.translations@.len() > 0 {
            Some(Some(p.translations@[0].text@))
        } else {
            Some(None)
        },
    }
}

pub open spec fn opt_str_view(o: Option<&'static str>) -> Option<Seq<char>> {
    match o {
        Some(s) => Some(s@),
        None => None,
    }
}

pub open spec fn res_str_view(r: Result<&'static str, TranslationError>) -> Result<Seq<char>, ErrorView> {
    match r {
        Ok(s) => Ok(s@),
        Err(e) => Err(e@),
    }
}

pub open spec fn req_view(r: Result<HttpRequest, TranslationError>) -> Result<RequestView, ErrorView> {
    match r {
        Ok(q) => Ok(q@),
        Err(e) => Err(e@),
    }
}

impl DeepLEngine {
    /// The configured key.
    pub closed spec fn key(&self) -> Seq<char> {
        self.api_key@
    }

    pub fn new(api_key: String) -> (r: Self)
        ensures
            r.key() == api_key@,
    {
        DeepLEngine { api_key }
    }

    fn endpoint(&self) -> (r: &'static str)
        ensures
            r@ == deepl_endpoint(self.key()),
    {
        if contains_text(self.api_key.as_str(), ":fx") {
            "https://api-free.deepl.com/v2/translate"
        } else {
            "https://api.deepl.com/v2/translate"
        }
    }

    fn map_source(src: &str) -> (r: Option<&'static str>)
        ensures
            opt_str_view(r) == deepl_source(src@),
    {
        if same_text(src, "pt") {
            Some("PT")
        } else if same_text(src, "en") {
            Some("EN")
        } else if same_text(src, "es") {
            Some("ES")
        } else {
            None
        }
    }

    fn map_target(tgt: &str) -> (r: Result<&'static str, TranslationError>)
        ensures
            res_str_view(r) == deepl_target(tgt@),
    {
        if same_text(tgt, "zh-cn") {
            Ok("ZH")
        } else {
            Err(TranslationError::LanguageNotSupported(String::from_str(tgt)))
        }
    }

    /// Builds the request that translates `text` from `source` into `target`.
    pub fn prepare(&self, text: &str, source: &str, target: &str) -> (r: Result<
        HttpRequest,
        TranslationError,
    >)
        ensures
            req_view(r) == deepl_request(self.key(), text@, source@, target@),
    {
        let key = trim(self.api_key.as_str());
        if key.as_str().unicode_len() == 0 {
            return Err(TranslationError::ApiKeyMissing);
        }
        let t = match Self::map_target(target) {
            Ok(t) => t,
            Err(e) => {
                return Err(e);
            },
        };
        let s = Self::map_source(source);
        let mut form: Vec<(String, String)> = Vec::new();
        form.push(pair("auth_key", key.as_str()));
        form.push(pair("text", text));
        form.push(pair("target_lang", t));
        match s {
            Some(src) => {
                form.push(pair("source_lang", src));
            },
            None => {},
        }
        let req = HttpRequest {
            url: String::from_str(self.endpoint()),
            query: Vec::new(),
            form,
        };
        proof {
            let base = seq![("auth_key"@, key@), ("text"@, text@), ("target_lang"@, t@)];
            let want = match deepl_source(source@) {
                Some(x) => base.push(("source_lang"@, x)),
                None => base,
            };
            assert(req.form.deep_view() =~= want);
            assert(req.query.deep_view() =~= Seq::<(Seq<char>, Seq<char>)>::empty());
        }
        Ok(req)
    }

    /// Reads DeepL's reply: `reply` is the status and body or the transport
    /// error text, `parsed` the body read as a DeepL response (`None` when it
    /// is not one).
    pub fn finish(reply: Result<HttpReply, String>, parsed: Option<DeepLResponse>) -> (r: Result<
        String,
        TranslationError,
    >)
        ensures
            outcome_view(r) == web_outcome("DeepL"@, reply_view(reply), deepl_first(parsed)),
    {
        let first = match parsed {
            None => None,
            Some(p) => {
                if p.translations.len() > 0 {
                    Some(Some(p.translations[0].text.clone()))
                } else {
                    Some(None)
                }
            },
        };
        web_result("DeepL", reply, first)
    }

    /// Always true: DeepL is reached over the network.
    pub fn is_available(&self) -> (r: bool)
        ensures
            r,
    {
        true
    }
}

impl TranslationEngine for DeepLEngine {
    fn name(&self) -> (r: &'static str)
        ensures
            r@ == "DeepL"@,
    {
        "DeepL"
    }

    fn requires_api_key(&self) -> (r: bool)
        ensures
            r,
    {
        true
    }
}


/// What DeepL is sent. With a key that is not blank and target "zh-cn": the
/// free endpoint for ":fx" keys and the paid one otherwise, no query, and the
/// form auth_key (the trimmed key), text, target_lang "ZH", then source_lang
/// naming the source — PT for pt, EN for en, ES for es — and no source_lang
/// for any other source. Any other target is refused naming it; a blank key
/// is refused as missing.
pub proof fn law_deepl_request(key: Seq<char>, text: Seq<char>, src: Seq<char>, tgt: Seq<char>)
    ensures
        trimmed(key).len() == 0 ==> deepl_request(key, text, src, tgt) == Err::<RequestView, ErrorView>(
            ErrorView::ApiKeyMissing,
        ),
        (trimmed(key).len() > 0 && tgt != "zh-cn"@) ==> deepl_request(key, text, src, tgt) == Err::<
            RequestView,
            ErrorView,
        >(ErrorView::LanguageNotSupported(tgt)),
        ({
            let base = seq![("auth_key"@, trimmed(key)), ("text"@, text), ("target_lang"@, "ZH"@)];
            let url = if has_infix(key, ":fx"@) {
                "https://api-free.deepl.com/v2/translate"@
            } else {
                "https://api.deepl.com/v2/translate"@
            };
            let req = |form: Seq<(Seq<char>, Seq<char>)>|
                Ok::<RequestView, ErrorView>(RequestView { url, query: Seq::empty(), form });
            (trimmed(key).len() > 0 && tgt == "zh-cn"@) ==> {
                &&& src == "pt"@ ==> deepl_request(key, text, src, tgt) == req(base.push(("source_lang"@, "PT"@)))
                &&& src == "en"@ ==> deepl_request(key, text, src, tgt) == req(base.push(("source_lang"@, "EN"@)))
                &&& src == "es"@ ==> deepl_request(key, text, src, tgt) == req(base.push(("source_lang"@, "ES"@)))
                &&& (src != "pt"@ && src != "en"@ && src != "es"@) ==> deepl_request(key, text, src, tgt)
                    == req(base)
            }
        }),
{
    crate::engine::lemma_language_settings_distinct();
}
} // verus!
