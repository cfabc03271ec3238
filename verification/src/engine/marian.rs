//! The offline MarianMT engine. Translation runs in a local Python worker
//! that reads one JSON request per line and answers with one JSON line; this
//! module checks the languages, builds the request line and reads the answer.

use vstd::prelude::*;
use super::{ErrorView, TranslationEngine, TranslationError, outcome_view, pair};
use crate::text::{join, lowercase, same_text, to_lower, trim, trimmed};

verus! {

pub struct MarianEngine {
    model_root: String,
}

/// The worker's answer to one request.
#[derive(Debug, Clone)]
pub struct MarianReply {
    pub ok: bool,
    pub translated: Option<String>,
    pub error: Option<String>,
}

/// What is known of the worker process before a request.
#[derive(Debug, Clone, Copy, PartialEq, Eq)]
pub enum WorkerStatus {
    /// No worker has been started.
    Absent,
    /// The worker has exited.
    Exited,
    /// The worker is running.
    Running,
    /// Its state could not be queried.
    Unknown,
}

/// The text of a JSON object whose members are the given string pairs, as
/// `serde_json` writes it.
pub uninterp spec fn json_string_object(pairs: Seq<(Seq<char>, Seq<char>)>) -> Seq<char>;

/// Builds a `serde_json::Value::Object` from string members and writes it
/// with its `Display` impl (`Value::to_string`). The text is named by
/// `json_string_object`; nothing more is stated of JSON escaping or of the
/// order in which members are written.
#[verifier::external_body]
fn json_object_line(pairs: &Vec<(String, String)>) -> (r: String)
    ensures
        r@ == json_string_object(pairs.deep_view()),
{
    let map: serde_json::Map<String, serde_json::Value> = pairs
        .iter()
        .map(|p| (p.0.clone(), serde_json::Value::String(p.1.clone())))
        .collect();
    serde_json::Value::Object(map).to_string()
}

/// The languages a request is made with: source and target trimmed and
/// lower-cased; only Simplified Chinese as target and Portuguese, English or
/// Spanish as source are wired.
pub open spec fn marian_langs(src: Seq<char>, tgt: Seq<char>) -> Result<(Seq<char>, Seq<char>), ErrorView> {
    let s = lowercase(trimmed(src));
    let t = lowercase(trimmed(tgt));
    if t != "zh-cn"@ {
        Err(
            ErrorView::LanguageNotSupported(
                "Marian only wired for target zh-cn right now (got "@ + t + ")"@,
            ),
        )
    } else if s == "pt"@ || s == "en"@ || s == "es"@ {
        Ok((s, t))
    } else {
        Err(ErrorView::LanguageNotSupported(s))
    }
}

/// The model folder a request names: the configured one, or "./models" when
/// none is configured.
pub open spec fn model_root_of(configured: Seq<char>) -> Seq<char> {
    if configured.len() == 0 {
        "./models"@
    } else {
        configured
    }
}

/// The request line for `text`, or why none is sent.
pub open spec fn marian_request(
    model_root: Seq<char>,
    text: Seq<char>,
    source: Seq<char>,
    target: Seq<char>,
) -> Result<Seq<char>, ErrorView> {
    match marian_langs(source, target) {
        Err(e) => Err(e),
        Ok((s, t)) => Ok(
            json_string_object(
                seq![
                    ("text"@, text),
                    ("source"@, s),
                    ("target"@, t),
                    ("model_root"@, model_root_of(model_root)),
                ],
            ),
        ),
    }
}

/// How the worker's answer turns into a translation.
pub open spec fn marian_outcome(ok: bool, translated: Option<Seq<char>>, error: Option<Seq<char>>) -> Result<Seq<char>, ErrorView> {
    if !ok {
        Err(
            ErrorView::TranslationFailed(
                match error {
                    Some(e) => e,
                    None => "unknown error"@,
                },
            ),
        )
    } else {
        let out = match translated {
            Some(t) => trimmed(t),
            None => Seq::<char>::empty(),
        };
        if out.len() == 0 {
            Err(ErrorView::TranslationFailed("Marian returned empty translation"@))
        } else {
            Ok(out)
        }
    }
}

pub open spec fn opt_string_view(o: Option<String>) -> Option<Seq<char>> {
    match o {
        Some(s) => Some(s@),
        None => None,
    }
}

pub open spec fn langs_view(r: Result<(String, String), TranslationError>) -> Result<(Seq<char>, Seq<char>), ErrorView> {
    match r {
        Ok((s, t)) => Ok((s@, t@)),
        Err(e) => Err(e@),
    }
}

/// Whether a new worker must be started before a request: unless one is
/// known to be running.
pub open spec fn must_spawn(s: WorkerStatus) -> bool {
    s != WorkerStatus::Running
}

impl MarianEngine {
    /// The configured model folder.
    pub closed spec fn root(&self) -> Seq<char> {
        self.model_root@
    }

    pub fn new(model_root: String) -> (r: Self)
        ensures
            r.root() == model_root@,
    {
        MarianEngine { model_root }
    }

    /// Checks and normalizes the language pair.
    pub fn map_lang(src: &str, tgt: &str) -> (r: Result<(String, String), TranslationError>)
        ensures
            langs_view(r) == marian_langs(src@, tgt@),
    {
        let s0 = trim(src);
        let s = to_lower(s0.as_str());
        let t0 = trim(tgt);
        let t = to_lower(t0.as_str());
        if !same_text(t.as_str(), "zh-cn") {
            let a = join("Marian only wired for target zh-cn right now (got ", t.as_str());
            let b = join(a.as_str(), ")");
            return Err(TranslationError::LanguageNotSupported(b));
        }
        if same_text(s.as_str(), "pt") || same_text(s.as_str(), "en") || same_text(s.as_str(), "es") {
            Ok((s, t))
        } else {
            Err(TranslationError::LanguageNotSupported(s))
        }
    }

    /// Builds the request line that translates `text` from `source` into `target`.
    pub fn prepare(&self, text: &str, source: &str, target: &str) -> (r: Result<String, TranslationError>)
        ensures
            outcome_view(r) == marian_request(self.root(), text@, source@, target@),
    {
        let (s, t) = match Self::map_lang(source, target) {
            Ok(p) => p,
            Err(e) => {
                return Err(e);
            },
        };
        let root = if self.model_root.as_str().unicode_len() == 0 {
            String::from_str("./models")
        } else {
            self.model_root.clone()
        };
        let mut pairs: Vec<(String, String)> = Vec::new();
        pairs.push(pair("text", text));
        pairs.push(pair("source", s.as_str()));
        pairs.push(pair("target", t.as_str()));
        pairs.push(pair("model_root", root.as_str()));
        assert(pairs.deep_view() =~= seq![
            ("text"@, text@),
            ("source"@, s@),
            ("target"@, t@),
            ("model_root"@, model_root_of(self.root())),
        ]);
        Ok(json_object_line(&pairs))
    }

    /// The line that asks a freshly started worker whether it is alive.
    pub fn ping_line() -> (r: String)
        ensures
            r@ == json_string_object(seq![("cmd"@, "ping"@)]),
    {
        let mut pairs: Vec<(String, String)> = Vec::new();
        pairs.push(pair("cmd", "ping"));
        assert(pairs.deep_view() =~= seq![("cmd"@, "ping"@)]);
        json_object_line(&pairs)
    }

    /// Reads the worker's answer (see `marian_outcome`).
    pub fn finish(reply: MarianReply) -> (r: Result<String, TranslationError>)
        ensures
            outcome_view(r) == marian_outcome(
                reply.ok,
                opt_string_view(reply.translated),
                opt_string_view(reply.error),
            ),
    {
        if !reply.ok {
            let msg = match reply.error {
                Some(e) => e,
                None => String::from_str("unknown error"),
            };
            return Err(TranslationError::TranslationFailed(msg));
        }
        let out = match reply.translated {
            Some(t) => trim(t.as_str()),
            None => String::new(),
        };
        if out.as_str().unicode_len() == 0 {
            Err(TranslationError::TranslationFailed(String::from_str("Marian returned empty translation")))
        } else {
            Ok(out)
        }
    }

    /// Whether a worker must be started before the next request.
    pub fn needs_spawn(status: WorkerStatus) -> (r: bool)
        ensures
            r == must_spawn(status),
    {
        match status {
            WorkerStatus::Running => false,
            _ => true,
        }
    }
}

impl TranslationEngine for MarianEngine {
    fn name(&self) -> (r: &'static str)
        ensures
            r@ == "MarianMT"@,
    {
        "MarianMT"
    }

    fn requires_api_key(&self) -> (r: bool)
        ensures
            !r,
    {
        false
    }
}


/// The offline engine takes Portuguese, English and Spanish into Simplified
/// Chinese: for a target that is "zh-cn" once trimmed and lower-cased, any of
/// those sources is accepted as its trimmed lower-case code, and the request
/// line sent to the worker names the text, that source, "zh-cn" and the model
/// folder ("./models" when none is configured). Any other target is refused
/// naming it, and any other source is refused naming the source.
pub proof fn law_marian_language_pairs(root: Seq<char>, text: Seq<char>, src: Seq<char>, tgt: Seq<char>)
    ensures
        ({
            let s = lowercase(trimmed(src));
            let t = lowercase(trimmed(tgt));
            &&& (t == "zh-cn"@ && (s == "pt"@ || s == "en"@ || s == "es"@)) ==> marian_langs(src, tgt)
                == Ok::<(Seq<char>, Seq<char>), ErrorView>((s, "zh-cn"@)) && marian_request(root, text, src, tgt)
                == Ok::<Seq<char>, ErrorView>(
                json_string_object(
                    seq![
                        ("text"@, text),
                        ("source"@, s),
                        ("target"@, "zh-cn"@),
                        ("model_root"@, if root.len() == 0 { "./models"@ } else { root }),
                    ],
                ),
            )
            &&& t != "zh-cn"@ ==> marian_request(root, text, src, tgt) == Err::<Seq<char>, ErrorView>(
                ErrorView::LanguageNotSupported(
                    "Marian only wired for target zh-cn right now (got "@ + t + ")"@,
                ),
            )
            &&& (t == "zh-cn"@ && s != "pt"@ && s != "en"@ && s != "es"@) ==> marian_request(
                root,
                text,
                src,
                tgt,
            ) == Err::<Seq<char>, ErrorView>(ErrorView::LanguageNotSupported(s))
        }),
{
}
} // verus!
