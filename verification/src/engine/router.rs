//! Chooses the engine named in the settings.

use vstd::prelude::*;
use super::TranslationEngine;
use super::deepl::DeepLEngine;
use super::google::GoogleEngine;
use super::marian::MarianEngine;
use super::windows_lp::WindowsLpEngine;
use crate::config::{AppConfig, ConfigView};
use crate::text::same_text;

verus! {

/// One of the engines, with its settings.
pub enum Engine {
    WindowsLp(WindowsLpEngine),
    Marian(MarianEngine),
    DeepL(DeepLEngine),
    Google(GoogleEngine),
}

/// An engine as plain values: which one, and the setting it was made with.
pub enum EngineChoice {
    WindowsLp,
    Marian(Seq<char>),
    DeepL(Seq<char>),
    Google(Seq<char>),
}

impl View for Engine {
    type V = EngineChoice;

    open spec fn view(&self) -> EngineChoice {
        match self {
            Engine::WindowsLp(_) => EngineChoice::WindowsLp,
            Engine::Marian(m) => EngineChoice::Marian(m.root()),
            Engine::DeepL(d) => EngineChoice::DeepL(d.key()),
            Engine::Google(g) => EngineChoice::Google(g.key()),
        }
    }
}

/// The engine the settings select; an unknown name selects the Windows
/// Language Pack engine.
pub open spec fn engine_for(cfg: ConfigView) -> EngineChoice {
    if cfg.active_engine == "deepl"@ {
        EngineChoice::DeepL(cfg.deepl_api_key)
    } else if cfg.active_engine == "google"@ {
        EngineChoice::Google(cfg.google_api_key)
    } else if cfg.active_engine == "marian"@ {
        EngineChoice::Marian(cfg.marian_model_path)
    } else {
        EngineChoice::WindowsLp
    }
}

/// The display name of an engine.
pub open spec fn engine_name(e: EngineChoice) -> Seq<char> {
    match e {
        EngineChoice::WindowsLp => "Windows LP"@,
        EngineChoice::Marian(_) => "MarianMT"@,
        EngineChoice::DeepL(_) => "DeepL"@,
        EngineChoice::Google(_) => "Google Translate"@,
    }
}

/// Whether an engine needs an API key.
pub open spec fn engine_needs_key(e: EngineChoice) -> bool {
    e is DeepL || e is Google
}

/// Builds the engine that the settings select.
pub fn get_engine(cfg: &AppConfig) -> (r: Engine)
    ensures
        r@ == engine_for(cfg@),
{
    let name = cfg.general.active_engine.as_str();
    if same_text(name, "deepl") {
        Engine::DeepL(DeepLEngine::new(cfg.engines.deepl.api_key.clone()))
    } else if same_text(name, "google") {
        Engine::Google(GoogleEngine::new(cfg.engines.google.api_key.clone()))
    } else if same_text(name, "marian") {
        Engine::Marian(MarianEngine::new(cfg.engines.marian.model_path.clone()))
    } else {
        Engine::WindowsLp(WindowsLpEngine::new())
    }
}

impl Engine {
    /// The engine's display name.
    pub fn name(&self) -> (r: &'static str)
        ensures
            r@ == engine_name(self@),
    {
        match self {
            Engine::WindowsLp(e) => e.name(),
            Engine::Marian(e) => e.name(),
            Engine::DeepL(e) => e.name(),
            Engine::Google(e) => e.name(),
        }
    }

    /// Whether the engine needs an API key.
    pub fn requires_api_key(&self) -> (r: bool)
        ensures
            r == engine_needs_key(self@),
    {
        match self {
            Engine::WindowsLp(e) => e.requires_api_key(),
            Engine::Marian(e) => e.requires_api_key(),
            Engine::DeepL(e) => e.requires_api_key(),
            Engine::Google(e) => e.requires_api_key(),
        }
    }
}

/// The four engine settings are different texts.
pub proof fn lemma_engine_settings_distinct()
    ensures
        "marian"@ != "deepl"@,
        "marian"@ != "google"@,
        "deepl"@ != "google"@,
{
    reveal_strlit("marian");
    reveal_strlit("deepl");
    reveal_strlit("google");
    assert("marian"@[0] == 'm' && "deepl"@[0] == 'd' && "google"@[0] == 'g');
}

/// Engine selection: "marian" selects MarianMT with the configured model
/// folder, "deepl" selects DeepL with the DeepL key, "google" selects Google
/// Translate with the Google key, and any other setting the Windows Language
/// Pack engine; each under its display name.
pub proof fn law_engine_selection(cfg: ConfigView)
    ensures
        cfg.active_engine == "marian"@ ==> engine_for(cfg) == EngineChoice::Marian(cfg.marian_model_path)
            && engine_name(engine_for(cfg)) == "MarianMT"@,
        cfg.active_engine == "deepl"@ ==> engine_for(cfg) == EngineChoice::DeepL(cfg.deepl_api_key)
            && engine_name(engine_for(cfg)) == "DeepL"@,
        cfg.active_engine == "google"@ ==> engine_for(cfg) == EngineChoice::Google(cfg.google_api_key)
            && engine_name(engine_for(cfg)) == "Google Translate"@,
        (cfg.active_engine != "marian"@ && cfg.active_engine != "deepl"@ && cfg.active_engine
            != "google"@) ==> engine_for(cfg) == EngineChoice::WindowsLp && engine_name(engine_for(cfg))
            == "Windows LP"@,
{
    lemma_engine_settings_distinct();
}

} // verus!
