//! Translation engines: the error type they share, the common trait, the
//! request and reply shapes of the web engines, and the reading of a web reply.

use vstd::prelude::*;
use crate::text::{decimal, decimal_string, join, trim, trimmed};

pub mod router;
pub mod deepl;
pub mod google;
pub mod marian;
pub mod windows_lp;

verus! {

/// What an engine reports about itself.
pub trait TranslationEngine {
    /// The engine's display name.
    fn name(&self) -> &'static str;

    /// Whether the engine needs an API key in the settings.
    fn requires_api_key(&self) -> bool;
}

/// Why a translation did not happen.
#[derive(Debug, Clone, PartialEq, Eq)]
pub enum TranslationError {
    ApiKeyMissing,
    NetworkError(String),
    LanguageNotSupported(String),
    ModelNotFound(String),
    EngineUnavailable(String),
    TranslationFailed(String),
}

/// A `TranslationError` as plain values.
pub enum ErrorView {
    ApiKeyMissing,
    NetworkError(Seq<char>),
    LanguageNotSupported(Seq<char>),
    ModelNotFound(Seq<char>),
    EngineUnavailable(Seq<char>),
    TranslationFailed(Seq<char>),
}

impl View for TranslationError {
    type V = ErrorView;

    open spec fn view(&self) -> ErrorView {
        match self {
            TranslationError::ApiKeyMissing => ErrorView::ApiKeyMissing,
            TranslationError::NetworkError(m) => ErrorView::NetworkError(m@),
            TranslationError::LanguageNotSupported(m) => ErrorView::LanguageNotSupported(m@),
            TranslationError::ModelNotFound(m) => ErrorView::ModelNotFound(m@),
            TranslationError::EngineUnavailable(m) => ErrorView::EngineUnavailable(m@),
            TranslationError::TranslationFailed(m) => ErrorView::TranslationFailed(m@),
        }
    }
}

/// The text shown for an error.
pub open spec fn error_text(e: ErrorView) -> Seq<char> {
    match e {
        ErrorView::ApiKeyMissing => "api key missing"@,
        ErrorView::NetworkError(m) => "network error: "@ + m,
        ErrorView::LanguageNotSupported(m) => "language not supported: "@ + m,
        ErrorView::ModelNotFound(m) => "model not found: "@ + m,
        ErrorView::EngineUnavailable(m) => "engine unavailable: "@ + m,
        ErrorView::TranslationFailed(m) => "translation failed: "@ + m,
    }
}

impl TranslationError {
    /// The text shown for this error.
    pub fn message(&self) -> (r: String)
        ensures
            r@ == error_text(self@),
    {
        match self {
            TranslationError::ApiKeyMissing => String::from_str("api key missing"),
            TranslationError::NetworkError(m) => join("network error: ", m.as_str()),
            TranslationError::LanguageNotSupported(m) => join(
                "language not supported: ",
                m.as_str(),
            ),
            TranslationError::ModelNotFound(m) => join("model not found: ", m.as_str()),
            TranslationError::EngineUnavailable(m) => join("engine unavailable: ", m.as_str()),
            TranslationError::TranslationFailed(m) => join("translation failed: ", m.as_str()),
        }
    }
}

/// An engine's outcome as plain values.
pub open spec fn outcome_view(r: Result<String, TranslationError>) -> Result<Seq<char>, ErrorView> {
    match r {
        Ok(s) => Ok(s@),
        Err(e) => Err(e@),
    }
}

/// A form-encoded POST to a web translation service.
#[derive(Debug, Clone)]
pub struct HttpRequest {
    pub url: String,
    /// Query-string parameters, in order.
    pub query: Vec<(String, String)>,
    /// Form fields of the body, in order.
    pub form: Vec<(String, String)>,
}

/// An `HttpRequest` as plain values.
pub struct RequestView {
    pub url: Seq<char>,
    pub query: Seq<(Seq<char>, Seq<char>)>,
    pub form: Seq<(Seq<char>, Seq<char>)>,
}

impl View for HttpRequest {
    type V = RequestView;

    open spec fn view(&self) -> RequestView {
        RequestView { url: self.url@, query: self.query.deep_view(), form: self.form.deep_view() }
    }
}

/// What came back from a web service: its status code and body text.
#[derive(Debug, Clone)]
pub struct HttpReply {
    pub status: u16,
    pub body: String,
}

/// A key and value pair of a request.
pub(crate) fn pair(k: &str, v: &str) -> (r: (String, String))
    ensures
        r.0@ == k@,
        r.1@ == v@,
{
    (String::from_str(k), String::from_str(v))
}

/// `StatusCode::is_success`: a 2xx status.
pub open spec fn is_success(status: u16) -> bool {
    200 <= status && status <= 299
}

/// How a web engine's reply turns into a translation. `reply` is the status
/// and body, or the transport error text; `first` is `None` when the body is
/// not the expected JSON, else the first translation's text if there is one.
pub open spec fn web_outcome(
    service: Seq<char>,
    reply: Result<(u16, Seq<char>), Seq<char>>,
    first: Option<Option<Seq<char>>>,
) -> Result<Seq<char>, ErrorView> {
    match reply {
        Err(m) => Err(ErrorView::NetworkError(m)),
        Ok((status, body)) => {
            if !is_success(status) {
                Err(
                    ErrorView::TranslationFailed(
                        service + " HTTP "@ + decimal(status as nat) + ": "@ + body,
                    ),
                )
            } else {
                match first {
                    None => Err(ErrorView::TranslationFailed(service + " JSON parse failed: "@ + body)),
                    Some(f) => {
                        let out = match f {
                            Some(t) => trimmed(t),
                            None => Seq::<char>::empty(),
                        };
                        if out.len() == 0 {
                            Err(
                                ErrorView::TranslationFailed(
                                    service + " returned empty translation"@,
                                ),
                            )
                        } else {
                            Ok(out)
                        }
                    },
                }
            }
        },
    }
}

/// A reply as plain values.
pub open spec fn reply_view(reply: Result<HttpReply, String>) -> Result<(u16, Seq<char>), Seq<char>> {
    match reply {
        Ok(r) => Ok((r.status, r.body@)),
        Err(m) => Err(m@),
    }
}

/// An optional first translation as plain values.
pub open spec fn first_view(first: Option<Option<String>>) -> Option<Option<Seq<char>>> {
    match first {
        None => None,
        Some(None) => Some(None),
        Some(Some(t)) => Some(Some(t@)),
    }
}

/// Reads a web engine's reply (see `web_outcome`).
pub fn web_result(
    service: &str,
    reply: Result<HttpReply, String>,
    first: Option<Option<String>>,
) -> (r: Result<String, TranslationError>)
    ensures
        outcome_view(r) == web_outcome(service@, reply_view(reply), first_view(first)),
{
    match reply {
        Err(m) => Err(TranslationError::NetworkError(m)),
        Ok(rep) => {
            if !(200 <= rep.status && rep.status <= 299) {
                let code = decimal_string(rep.status as u64);
                let a = join(service, " HTTP ");
                let b = join(a.as_str(), code.as_str());
                let c = join(b.as_str(), ": ");
                let d = join(c.as_str(), rep.body.as_str());
                return Err(TranslationError::TranslationFailed(d));
            }
            match first {
                None => {
                    let a = join(service, " JSON parse failed: ");
                    let b = join(a.as_str(), rep.body.as_str());
                    Err(TranslationError::TranslationFailed(b))
                },
                Some(f) => {
                    let out = match f {
                        Some(t) => trim(t.as_str()),
                        None => String::new(),
                    };
                    if out.as_str().unicode_len() == 0 {
                        Err(
                            TranslationError::TranslationFailed(
                                join(service, " returned empty translation"),
                            ),
                        )
                    } else {
                        Ok(out)
                    }
                },
            }
        },
    }
}


/// The language settings are different texts.
pub proof fn lemma_language_settings_distinct()
    ensures
        "pt"@ != "en"@,
        "pt"@ != "es"@,
        "en"@ != "es"@,
        "pt"@ != "zh-cn"@,
        "en"@ != "zh-cn"@,
        "es"@ != "zh-cn"@,
{
    reveal_strlit("pt");
    reveal_strlit("en");
    reveal_strlit("es");
    reveal_strlit("zh-cn");
    assert("pt"@[0] == 'p' && "en"@[1] == 'n' && "es"@[1] == 's' && "en"@[0] == 'e');
    assert("zh-cn"@.len() == 5 && "pt"@.len() == 2);
}

} // verus!
