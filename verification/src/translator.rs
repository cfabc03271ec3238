//! The translation hot path: the phrasebook for short greetings, the choice
//! of engine job, the single-flight guard, and the step machine that orders
//! clipboard backup, capture, translation, the focus check, paste and restore.

use vstd::prelude::*;
use crate::config::{AppConfig, ConfigView};
use crate::engine::{ErrorView, TranslationError, error_text};
use crate::engine::router::{Engine, EngineChoice, engine_for, engine_name, get_engine};
use crate::text::{
    CharClass, chars_of, join, lowercase, same_text, string_of, to_lower, trim, trim_chars,
    trim_class, trimmed,
};

verus! {

/// The form of a phrase that the phrasebook looks up: trimmed, lower-cased,
/// and stripped of surrounding white space and sentence marks.
pub open spec fn normalized(s: Seq<char>) -> Seq<char> {
    trim_class(lowercase(trimmed(s)), CharClass::SpaceOrMark)
}

/// Normalizes a phrase for lookup.
pub fn normalize_phrase(s: &str) -> (r: String)
    ensures
        r@ == normalized(s@),
{
    let t = trim(s);
    let low = to_lower(t.as_str());
    let v = chars_of(low.as_str());
    let w = trim_chars(&v, CharClass::SpaceOrMark);
    string_of(&w)
}

/// The Simplified Chinese rendering of a normalized greeting, if it is one
/// the phrasebook knows (Portuguese, English and Spanish).
pub open spec fn phrase_zh_cn(t: Seq<char>) -> Option<Seq<char>> {
    if t == "bom dia"@ {
        Some("早上好"@)
    } else if t == "boa tarde"@ {
        Some("下午好"@)
    } else if t == "boa noite"@ {
        Some("晚上好"@)
    } else if t == "olá"@ || t == "ola"@ {
        Some("你好"@)
    } else if t == "tudo bem"@ || t == "como vai"@ {
        Some("你好吗？"@)
    } else if t == "obrigado"@ || t == "obrigada"@ {
        Some("谢谢"@)
    } else if t == "por favor"@ {
        Some("请"@)
    } else if t == "good morning"@ {
        Some("早上好"@)
    } else if t == "good afternoon"@ {
        Some("下午好"@)
    } else if t == "good evening"@ {
        Some("晚上好"@)
    } else if t == "good night"@ {
        Some("晚安"@)
    } else if t == "hello"@ || t == "hi"@ {
        Some("你好"@)
    } else if t == "thank you"@ || t == "thanks"@ {
        Some("谢谢"@)
    } else if t == "buenos dias"@ || t == "buenos días"@ {
        Some("早上好"@)
    } else if t == "buenas tardes"@ {
        Some("下午好"@)
    } else if t == "buenas noches"@ {
        Some("晚上好"@)
    } else if t == "hola"@ {
        Some("你好"@)
    } else if t == "gracias"@ {
        Some("谢谢"@)
    } else {
        None
    }
}

/// Views an optional static string.
pub open spec fn opt_view(o: Option<&'static str>) -> Option<Seq<char>> {
    match o {
        Some(s) => Some(s@),
        None => None,
    }
}

/// Looks `text` up in the greeting phrasebook.
pub fn phrasebook_zh_cn(text: &str) -> (r: Option<&'static str>)
    ensures
        opt_view(r) == phrase_zh_cn(normalized(text@)),
{
    let n = normalize_phrase(text);
    let t = n.as_str();
    if same_text(t, "bom dia") {
        Some("早上好")
    } else if same_text(t, "boa tarde") {
        Some("下午好")
    } else if same_text(t, "boa noite") {
        Some("晚上好")
    } else if same_text(t, "olá") || same_text(t, "ola") {
        Some("你好")
    } else if same_text(t, "tudo bem") || same_text(t, "como vai") {
        Some("你好吗？")
    } else if same_text(t, "obrigado") || same_text(t, "obrigada") {
        Some("谢谢")
    } else if same_text(t, "por favor") {
        Some("请")
    } else if same_text(t, "good morning") {
        Some("早上好")
    } else if same_text(t, "good afternoon") {
        Some("下午好")
    } else if same_text(t, "good evening") {
        Some("晚上好")
    } else if same_text(t, "good night") {
        Some("晚安")
    } else if same_text(t, "hello") || same_text(t, "hi") {
        Some("你好")
    } else if same_text(t, "thank you") || same_text(t, "thanks") {
        Some("谢谢")
    } else if same_text(t, "buenos dias") || same_text(t, "buenos días") {
        Some("早上好")
    } else if same_text(t, "buenas tardes") {
        Some("下午好")
    } else if same_text(t, "buenas noches") {
        Some("晚上好")
    } else if same_text(t, "hola") {
        Some("你好")
    } else if same_text(t, "gracias") {
        Some("谢谢")
    } else {
        None
    }
}


/// What one run of the hot path produced.
#[derive(Debug, Clone)]
pub struct TranslationResult {
    pub original: String,
    pub translated: String,
    pub engine_used: String,
    pub duration_ms: u64,
}

/// Why a run of the hot path stopped.
#[derive(Debug, Clone)]
pub enum HotpathError {
    /// Another run has not finished yet.
    AlreadyInProgress,
    /// The clipboard could not be saved; nothing else was touched.
    BackupFailed(String),
    /// No window had the focus when the hotkey fired.
    NoForegroundWindow,
    /// Selecting and copying the field's text failed.
    ReadFailed(String),
    /// The field held nothing but white space.
    NoText,
    /// The engine gave no translation.
    TranslationFailed(TranslationError),
    /// The focus moved during translation, so nothing was pasted.
    FocusChanged,
    /// The translation could not be put on the clipboard.
    WriteFailed(String),
    /// Pasting into the field failed.
    PasteFailed(String),
}

/// A `HotpathError` as plain values.
pub enum FaultView {
    AlreadyInProgress,
    BackupFailed(Seq<char>),
    NoForegroundWindow,
    ReadFailed(Seq<char>),
    NoText,
    TranslationFailed(ErrorView),
    FocusChanged,
    WriteFailed(Seq<char>),
    PasteFailed(Seq<char>),
}

impl View for HotpathError {
    type V = FaultView;

    open spec fn view(&self) -> FaultView {
        match self {
            HotpathError::AlreadyInProgress => FaultView::AlreadyInProgress,
            HotpathError::BackupFailed(m) => FaultView::BackupFailed(m@),
            HotpathError::NoForegroundWindow => FaultView::NoForegroundWindow,
            HotpathError::ReadFailed(m) => FaultView::ReadFailed(m@),
            HotpathError::NoText => FaultView::NoText,
            HotpathError::TranslationFailed(e) => FaultView::TranslationFailed(e@),
            HotpathError::FocusChanged => FaultView::FocusChanged,
            HotpathError::WriteFailed(m) => FaultView::WriteFailed(m@),
            HotpathError::PasteFailed(m) => FaultView::PasteFailed(m@),
        }
    }
}

/// The text shown for a hot-path error.
pub open spec fn fault_text(f: FaultView) -> Seq<char> {
    match f {
        FaultView::AlreadyInProgress => "translation already in progress"@,
        FaultView::BackupFailed(m) => "clipboard backup failed: "@ + m,
        FaultView::NoForegroundWindow => "no foreground window"@,
        FaultView::ReadFailed(m) => m,
        FaultView::NoText => "no text detected in active field"@,
        FaultView::TranslationFailed(e) => "translation failed: "@ + error_text(e),
        FaultView::FocusChanged => "focus changed during translation; aborted paste to avoid wrong target"@,
        FaultView::WriteFailed(m) => "write translated text to clipboard failed: "@ + m,
        FaultView::PasteFailed(m) => "Ctrl+V failed: "@ + m,
    }
}

impl HotpathError {
    /// The text shown for this error.
    pub fn message(&self) -> (r: String)
        ensures
            r@ == fault_text(self@),
    {
        match self {
            HotpathError::AlreadyInProgress => String::from_str("translation already in progress"),
            HotpathError::BackupFailed(m) => join("clipboard backup failed: ", m.as_str()),
            HotpathError::NoForegroundWindow => String::from_str("no foreground window"),
            HotpathError::ReadFailed(m) => m.clone(),
            HotpathError::NoText => String::from_str("no text detected in active field"),
            HotpathError::TranslationFailed(e) => {
                let t = e.message();
                join("translation failed: ", t.as_str())
            },
            HotpathError::FocusChanged => String::from_str(
                "focus changed during translation; aborted paste to avoid wrong target",
            ),
            HotpathError::WriteFailed(m) => join(
                "write translated text to clipboard failed: ",
                m.as_str(),
            ),
            HotpathError::PasteFailed(m) => join("Ctrl+V failed: ", m.as_str()),
        }
    }
}

/// Admits one run of the hot path at a time.
pub struct TranslatingGuard;

impl TranslatingGuard {
    /// Marks a run as started; refused while `busy` is already set.
    pub fn enter(busy: &mut bool) -> (r: Result<TranslatingGuard, HotpathError>)
        ensures
            *final(busy),
            r is Ok <==> !*old(busy),
            r matches Err(e) ==> e@ == FaultView::AlreadyInProgress,
    {
        if *busy {
            return Err(HotpathError::AlreadyInProgress);
        }
        *busy = true;
        Ok(TranslatingGuard)
    }

    /// Marks the run as over.
    pub fn leave(self, busy: &mut bool)
        ensures
            !*final(busy),
    {
        *busy = false;
    }
}

/// The engine call a run makes: which engine, and the text and languages it
/// is called with.
pub struct EngineJob {
    pub engine: Engine,
    pub text: String,
    pub source: String,
    pub target: String,
}

/// An `EngineJob` as plain values.
pub struct JobView {
    pub engine: EngineChoice,
    pub text: Seq<char>,
    pub source: Seq<char>,
    pub target: Seq<char>,
}

impl View for EngineJob {
    type V = JobView;

    open spec fn view(&self) -> JobView {
        JobView { engine: self.engine@, text: self.text@, source: self.source@, target: self.target@ }
    }
}

/// The engine call for `original` under the settings `cfg`: the selected
/// engine, with the configured languages trimmed.
pub open spec fn job_for(cfg: ConfigView, original: Seq<char>) -> JobView {
    JobView {
        engine: engine_for(cfg),
        text: original,
        source: trimmed(cfg.source_language),
        target: trimmed(cfg.target_language),
    }
}

/// Prepares the call of the selected engine for `original`.
pub fn translate_via_selected_engine(cfg: &AppConfig, original: &str) -> (r: EngineJob)
    ensures
        r@ == job_for(cfg@, original@),
{
    EngineJob {
        engine: get_engine(cfg),
        text: String::from_str(original),
        source: trim(cfg.general.source_language.as_str()),
        target: trim(cfg.general.target_language.as_str()),
    }
}


/// Where a run of the hot path stands. Each stage waits for one event.
pub enum Stage {
    /// No run is under way.
    Idle,
    /// Waiting for the clipboard backup.
    BackingUp,
    /// Waiting for the window that has the focus.
    Locating,
    /// Waiting for the text selected and copied from window `target`.
    Reading { target: u64 },
    /// Waiting for the engine's translation of `original`.
    Translating { target: u64, original: String, engine_used: String },
    /// Waiting for the window that has the focus now.
    Checking { target: u64, original: String, translated: String, engine_used: String },
    /// Waiting for the translation to be put on the clipboard.
    Writing { target: u64, original: String, translated: String, engine_used: String },
    /// Waiting for the paste into window `target`.
    Pasting { target: u64, original: String, translated: String, engine_used: String },
    /// Waiting for the clipboard to be restored; `outcome` is the run's result.
    Restoring { outcome: Result<(String, String, String), HotpathError> },
}

/// What the caller observed after carrying out the last action.
pub enum Event {
    /// The hotkey asks for a run.
    Start,
    /// The clipboard was saved, or the error text.
    BackedUp(Result<(), String>),
    /// The window that has the focus; 0 when none has.
    Foreground(u64),
    /// The text copied from the field, or the error text.
    SelectionRead(Result<String, String>),
    /// The engine's answer.
    EngineDone(Result<String, TranslationError>),
    /// The translation is on the clipboard, or the error text.
    ClipboardWritten(Result<(), String>),
    /// The first paste succeeded, or the error text.
    Pasted(Result<(), String>),
    /// The saved clipboard was put back; `elapsed_ms` since the run began.
    Restored { elapsed_ms: u64 },
}

/// What the caller must do next.
pub enum Action {
    /// Save the whole clipboard.
    BackupClipboard,
    /// Report the window that has the focus.
    FindForeground,
    /// Release Shift, select all and copy in the focused field, and read the clipboard.
    ReadSelection,
    /// Call the engine.
    RunEngine(EngineJob),
    /// Report the window that has the focus now.
    CheckForeground,
    /// Put this text on the clipboard.
    WriteClipboard(String),
    /// Bring this window forward, select all, and paste.
    Paste(u64),
    /// Put the saved clipboard back.
    RestoreClipboard,
    /// The run is over, with this result.
    Finish(Result<TranslationResult, HotpathError>),
    /// The event does not belong to this stage; nothing to do.
    Ignore,
}

/// A stage as plain values. Texts are (original, translated, engine used).
pub enum StageView {
    Idle,
    BackingUp,
    Locating,
    Reading(u64),
    Translating(u64, Seq<char>, Seq<char>),
    Checking(u64, Seq<char>, Seq<char>, Seq<char>),
    Writing(u64, Seq<char>, Seq<char>, Seq<char>),
    Pasting(u64, Seq<char>, Seq<char>, Seq<char>),
    Restoring(Result<(Seq<char>, Seq<char>, Seq<char>), FaultView>),
}

/// An event as plain values.
pub enum EventView {
    Start,
    BackedUp(Result<(), Seq<char>>),
    Foreground(u64),
    SelectionRead(Result<Seq<char>, Seq<char>>),
    EngineDone(Result<Seq<char>, ErrorView>),
    ClipboardWritten(Result<(), Seq<char>>),
    Pasted(Result<(), Seq<char>>),
    Restored(u64),
}

/// A run's result as plain values: (original, translated, engine used, duration).
pub type ResultView = Result<(Seq<char>, Seq<char>, Seq<char>, u64), FaultView>;

/// An action as plain values.
pub enum ActionView {
    BackupClipboard,
    FindForeground,
    ReadSelection,
    RunEngine(JobView),
    CheckForeground,
    WriteClipboard(Seq<char>),
    Paste(u64),
    RestoreClipboard,
    Finish(ResultView),
    Ignore,
}

pub open spec fn unit_result_view(r: Result<(), String>) -> Result<(), Seq<char>> {
    match r {
        Ok(_) => Ok(()),
        Err(m) => Err(m@),
    }
}

pub open spec fn text_result_view(r: Result<String, String>) -> Result<Seq<char>, Seq<char>> {
    match r {
        Ok(s) => Ok(s@),
        Err(m) => Err(m@),
    }
}

pub open spec fn engine_result_view(r: Result<String, TranslationError>) -> Result<Seq<char>, ErrorView> {
    match r {
        Ok(s) => Ok(s@),
        Err(e) => Err(e@),
    }
}

pub open spec fn outcome_texts(o: Result<(String, String, String), HotpathError>) -> Result<(Seq<char>, Seq<char>, Seq<char>), FaultView> {
    match o {
        Ok((a, b, c)) => Ok((a@, b@, c@)),
        Err(e) => Err(e@),
    }
}

impl View for Stage {
    type V = StageView;

    open spec fn view(&self) -> StageView {
        match self {
            Stage::Idle => StageView::Idle,
            Stage::BackingUp => StageView::BackingUp,
            Stage::Locating => StageView::Locating,
            Stage::Reading { target } => StageView::Reading(*target),
            Stage::Translating { target, original, engine_used } => StageView::Translating(
                *target,
                original@,
                engine_used@,
            ),
            Stage::Checking { target, original, translated, engine_used } => StageView::Checking(
                *target,
                original@,
                translated@,
                engine_used@,
            ),
            Stage::Writing { target, original, translated, engine_used } => StageView::Writing(
                *target,
                original@,
                translated@,
                engine_used@,
            ),
            Stage::Pasting { target, original, translated, engine_used } => StageView::Pasting(
                *target,
                original@,
                translated@,
                engine_used@,
            ),
            Stage::Restoring { outcome } => StageView::Restoring(outcome_texts(*outcome)),
        }
    }
}

impl View for Event {
    type V = EventView;

    open spec fn view(&self) -> EventView {
        match self {
            Event::Start => EventView::Start,
            Event::BackedUp(r) => EventView::BackedUp(unit_result_view(*r)),
            Event::Foreground(h) => EventView::Foreground(*h),
            Event::SelectionRead(r) => EventView::SelectionRead(text_result_view(*r)),
            Event::EngineDone(r) => EventView::EngineDone(engine_result_view(*r)),
            Event::ClipboardWritten(r) => EventView::ClipboardWritten(unit_result_view(*r)),
            Event::Pasted(r) => EventView::Pasted(unit_result_view(*r)),
            Event::Restored { elapsed_ms } => EventView::Restored(*elapsed_ms),
        }
    }
}

pub open spec fn run_result_view(r: Result<TranslationResult, HotpathError>) -> ResultView {
    match r {
        Ok(t) => Ok((t.original@, t.translated@, t.engine_used@, t.duration_ms)),
        Err(e) => Err(e@),
    }
}

impl View for Action {
    type V = ActionView;

    open spec fn view(&self) -> ActionView {
        match self {
            Action::BackupClipboard => ActionView::BackupClipboard,
            Action::FindForeground => ActionView::FindForeground,
            Action::ReadSelection => ActionView::ReadSelection,
            Action::RunEngine(j) => ActionView::RunEngine(j@),
            Action::CheckForeground => ActionView::CheckForeground,
            Action::WriteClipboard(t) => ActionView::WriteClipboard(t@),
            Action::Paste(h) => ActionView::Paste(*h),
            Action::RestoreClipboard => ActionView::RestoreClipboard,
            Action::Finish(r) => ActionView::Finish(run_result_view(*r)),
            Action::Ignore => ActionView::Ignore,
        }
    }
}

/// The engine name recorded when the phrasebook answered.
pub open spec fn phrasebook_label() -> Seq<char> {
    "phrasebook"@
}

/// What follows reading `copied` from window `target`: an empty field ends
/// the run; for a Simplified Chinese target a phrasebook greeting is used as
/// is; anything else goes to the selected engine.
pub open spec fn after_reading(cfg: ConfigView, target: u64, copied: Seq<char>) -> (StageView, ActionView) {
    let original = trimmed(copied);
    if original.len() == 0 {
        (StageView::Restoring(Err(FaultView::NoText)), ActionView::RestoreClipboard)
    } else if trimmed(cfg.target_language) == "zh-cn"@ && phrase_zh_cn(normalized(original)) is Some {
        (
            StageView::Checking(
                target,
                original,
                phrase_zh_cn(normalized(original))->0,
                phrasebook_label(),
            ),
            ActionView::CheckForeground,
        )
    } else {
        (
            StageView::Translating(target, original, engine_name(engine_for(cfg))),
            ActionView::RunEngine(job_for(cfg, original)),
        )
    }
}

/// One step of the hot path: from a stage and the event that ends it, the
/// next stage and the action to carry out. An event that does not belong to
/// the stage changes nothing.
pub open spec fn next(s: StageView, cfg: ConfigView, e: EventView) -> (StageView, ActionView) {
    let restore = |o: Result<(Seq<char>, Seq<char>, Seq<char>), FaultView>|
        (StageView::Restoring(o), ActionView::RestoreClipboard);
    let ignore = (s, ActionView::Ignore);
    match s {
        StageView::Idle => match e {
            EventView::Start => (StageView::BackingUp, ActionView::BackupClipboard),
            _ => ignore,
        },
        StageView::BackingUp => match e {
            EventView::BackedUp(Ok(_)) => (StageView::Locating, ActionView::FindForeground),
            EventView::BackedUp(Err(m)) => (
                StageView::Idle,
                ActionView::Finish(Err(FaultView::BackupFailed(m))),
            ),
            _ => ignore,
        },
        StageView::Locating => match e {
            EventView::Foreground(h) => if h == 0 {
                restore(Err(FaultView::NoForegroundWindow))
            } else {
                (StageView::Reading(h), ActionView::ReadSelection)
            },
            _ => ignore,
        },
        StageView::Reading(h) => match e {
            EventView::SelectionRead(Err(m)) => restore(Err(FaultView::ReadFailed(m))),
            EventView::SelectionRead(Ok(c)) => after_reading(cfg, h, c),
            _ => ignore,
        },
        StageView::Translating(h, o, u) => match e {
            EventView::EngineDone(Err(x)) => restore(Err(FaultView::TranslationFailed(x))),
            EventView::EngineDone(Ok(t)) => (StageView::Checking(h, o, t, u), ActionView::CheckForeground),
            _ => ignore,
        },
        StageView::Checking(h, o, t, u) => match e {
            EventView::Foreground(g) => if g == h {
                (StageView::Writing(h, o, t, u), ActionView::WriteClipboard(t))
            } else {
                restore(Err(FaultView::FocusChanged))
            },
            _ => ignore,
        },
        StageView::Writing(h, o, t, u) => match e {
            EventView::ClipboardWritten(Err(m)) => restore(Err(FaultView::WriteFailed(m))),
            EventView::ClipboardWritten(Ok(_)) => (StageView::Pasting(h, o, t, u), ActionView::Paste(h)),
            _ => ignore,
        },
        StageView::Pasting(h, o, t, u) => match e {
            EventView::Pasted(Err(m)) => restore(Err(FaultView::PasteFailed(m))),
            EventView::Pasted(Ok(_)) => restore(Ok((o, t, u))),
            _ => ignore,
        },
        StageView::Restoring(out) => match e {
            EventView::Restored(ms) => (
                StageView::Idle,
                ActionView::Finish(
                    match out {
                        Ok((o, t, u)) => Ok((o, t, u, ms)),
                        Err(f) => Err(f),
                    },
                ),
            ),
            _ => ignore,
        },
    }
}

/// Carries out one step of the hot path (see `next`).
pub fn step(stage: Stage, cfg: &AppConfig, event: Event) -> (r: (Stage, Action))
    ensures
        (r.0@, r.1@) == next(stage@, cfg@, event@),
{
    match stage {
        Stage::Idle => match event {
            Event::Start => (Stage::BackingUp, Action::BackupClipboard),
            _ => (Stage::Idle, Action::Ignore),
        },
        Stage::BackingUp => match event {
            Event::BackedUp(Ok(_)) => (Stage::Locating, Action::FindForeground),
            Event::BackedUp(Err(m)) => (
                Stage::Idle,
                Action::Finish(Err(HotpathError::BackupFailed(m))),
            ),
            _ => (Stage::BackingUp, Action::Ignore),
        },
        Stage::Locating => match event {
            Event::Foreground(h) => {
                if h == 0 {
                    (
                        Stage::Restoring { outcome: Err(HotpathError::NoForegroundWindow) },
                        Action::RestoreClipboard,
                    )
                } else {
                    (Stage::Reading { target: h }, Action::ReadSelection)
                }
            },
            _ => (Stage::Locating, Action::Ignore),
        },
        Stage::Reading { target } => match event {
            Event::SelectionRead(Err(m)) => (
                Stage::Restoring { outcome: Err(HotpathError::ReadFailed(m)) },
                Action::RestoreClipboard,
            ),
            Event::SelectionRead(Ok(c)) => read_done(cfg, target, c),
            _ => (Stage::Reading { target }, Action::Ignore),
        },
        Stage::Translating { target, original, engine_used } => match event {
            Event::EngineDone(Err(x)) => (
                Stage::Restoring { outcome: Err(HotpathError::TranslationFailed(x)) },
                Action::RestoreClipboard,
            ),
            Event::EngineDone(Ok(t)) => (
                Stage::Checking { target, original, translated: t, engine_used },
                Action::CheckForeground,
            ),
            _ => (Stage::Translating { target, original, engine_used }, Action::Ignore),
        },
        Stage::Checking { target, original, translated, engine_used } => match event {
            Event::Foreground(g) => {
                if g == target {
                    let copy = translated.clone();
                    (
                        Stage::Writing { target, original, translated, engine_used },
                        Action::WriteClipboard(copy),
                    )
                } else {
                    (
                        Stage::Restoring { outcome: Err(HotpathError::FocusChanged) },
                        Action::RestoreClipboard,
                    )
                }
            },
            _ => (Stage::Checking { target, original, translated, engine_used }, Action::Ignore),
        },
        Stage::Writing { target, original, translated, engine_used } => match event {
            Event::ClipboardWritten(Err(m)) => (
                Stage::Restoring { outcome: Err(HotpathError::WriteFailed(m)) },
                Action::RestoreClipboard,
            ),
            Event::ClipboardWritten(Ok(_)) => (
                Stage::Pasting { target, original, translated, engine_used },
                Action::Paste(target),
            ),
            _ => (Stage::Writing { target, original, translated, engine_used }, Action::Ignore),
        },
        Stage::Pasting { target, original, translated, engine_used } => match event {
            Event::Pasted(Err(m)) => (
                Stage::Restoring { outcome: Err(HotpathError::PasteFailed(m)) },
                Action::RestoreClipboard,
            ),
            Event::Pasted(Ok(_)) => (
                Stage::Restoring { outcome: Ok((original, translated, engine_used)) },
                Action::RestoreClipboard,
            ),
            _ => (Stage::Pasting { target, original, translated, engine_used }, Action::Ignore),
        },
        Stage::Restoring { outcome } => match event {
            Event::Restored { elapsed_ms } => {
                let result = match outcome {
                    Ok((o, t, u)) => Ok(
                        TranslationResult {
                            original: o,
                            translated: t,
                            engine_used: u,
                            duration_ms: elapsed_ms,
                        },
                    ),
                    Err(f) => Err(f),
                };
                (Stage::Idle, Action::Finish(result))
            },
            _ => (Stage::Restoring { outcome }, Action::Ignore),
        },
    }
}

/// The step after the field's text was read (see `after_reading`).
fn read_done(cfg: &AppConfig, target: u64, copied: String) -> (r: (Stage, Action))
    ensures
        (r.0@, r.1@) == after_reading(cfg@, target, copied@),
{
    let original = trim(copied.as_str());
    if original.as_str().unicode_len() == 0 {
        return (Stage::Restoring { outcome: Err(HotpathError::NoText) }, Action::RestoreClipboard);
    }
    let tgt = trim(cfg.general.target_language.as_str());
    if same_text(tgt.as_str(), "zh-cn") {
        match phrasebook_zh_cn(original.as_str()) {
            Some(p) => {
                return (
                    Stage::Checking {
                        target,
                        original,
                        translated: String::from_str(p),
                        engine_used: String::from_str("phrasebook"),
                    },
                    Action::CheckForeground,
                );
            },
            None => {},
        }
    }
    let job = translate_via_selected_engine(cfg, original.as_str());
    let used = String::from_str(job.engine.name());
    (Stage::Translating { target, original, engine_used: used }, Action::RunEngine(job))
}


/// The stage reached and the actions emitted when the events `es` arrive,
/// one after another, starting at stage `s`.
pub open spec fn run(s: StageView, cfg: ConfigView, es: Seq<EventView>) -> (StageView, Seq<ActionView>)
    decreases es.len(),
{
    if es.len() == 0 {
        (s, Seq::empty())
    } else {
        let (p, acts) = run(s, cfg, es.drop_last());
        let (q, a) = next(p, cfg, es.last());
        (q, acts.push(a))
    }
}

/// The window a stage will paste into, if it is past the focus check.
pub open spec fn confirmed_target(s: StageView) -> Option<u64> {
    match s {
        StageView::Writing(h, _, _, _) => Some(h),
        StageView::Pasting(h, _, _, _) => Some(h),
        _ => None,
    }
}

/// Event `j` of `es` reported window `h` in the focus check and so led to
/// writing the clipboard.
pub open spec fn checked_at(es: Seq<EventView>, acts: Seq<ActionView>, j: int, h: u64) -> bool {
    &&& 0 <= j < es.len()
    &&& j < acts.len()
    &&& es[j] == EventView::Foreground(h)
    &&& acts[j] is WriteClipboard
}

proof fn lemma_run_len(s: StageView, cfg: ConfigView, es: Seq<EventView>)
    ensures
        run(s, cfg, es).1.len() == es.len(),
    decreases es.len(),
{
    if es.len() > 0 {
        lemma_run_len(s, cfg, es.drop_last());
    }
}

proof fn lemma_focus_invariant(cfg: ConfigView, es: Seq<EventView>)
    ensures
        ({
            let (st, acts) = run(StageView::Idle, cfg, es);
            &&& confirmed_target(st) matches Some(h) ==> exists|j: int| checked_at(es, acts, j, h)
            &&& forall|i: int|
                0 <= i < acts.len() && (#[trigger] acts[i] is Paste) ==> exists|j: int|
                    j < i && checked_at(es, acts, j, acts[i]->Paste_0)
        }),
    decreases es.len(),
{
    lemma_run_len(StageView::Idle, cfg, es);
    if es.len() > 0 {
        let prev = es.drop_last();
        lemma_focus_invariant(cfg, prev);
        lemma_run_len(StageView::Idle, cfg, prev);
        let (p, acts0) = run(StageView::Idle, cfg, prev);
        let (q, a) = next(p, cfg, es.last());
        let acts = acts0.push(a);
        let n = prev.len() as int;
        assert(es[n] == es.last());
        assert forall|j: int, h: u64| checked_at(prev, acts0, j, h) implies checked_at(es, acts, j, h) by {
            assert(es[j] == prev[j]);
            assert(acts[j] == acts0[j]);
        }
        if let Some(h) = confirmed_target(q) {
            if confirmed_target(p) == Some(h) {
                let j = choose|j: int| checked_at(prev, acts0, j, h);
                assert(checked_at(es, acts, j, h));
            } else {
                assert(es.last() == EventView::Foreground(h));
                assert(checked_at(es, acts, n, h));
            }
        }
        assert forall|i: int|
            0 <= i < acts.len() && (#[trigger] acts[i] is Paste) implies exists|j: int|
                j < i && checked_at(es, acts, j, acts[i]->Paste_0) by {
            let h = acts[i]->Paste_0;
            if i < n {
                assert(acts0[i] == acts[i]);
                let j = choose|j: int| j < i && checked_at(prev, acts0, j, h);
                assert(checked_at(es, acts, j, h));
            } else {
                assert(confirmed_target(p) == Some(h));
                let j = choose|j: int| checked_at(prev, acts0, j, h);
                assert(checked_at(es, acts, j, h));
            }
        }
    }
}

/// Focus safety: in any run that starts idle, every paste goes to a window
/// that an earlier focus check reported, after the translation was put on the
/// clipboard on the strength of that check. A run never pastes into a window
/// that took the focus while the text was being translated.
pub proof fn law_paste_only_after_focus_check(cfg: ConfigView, es: Seq<EventView>, i: int, h: u64)
    requires
        0 <= i < run(StageView::Idle, cfg, es).1.len(),
        run(StageView::Idle, cfg, es).1[i] == ActionView::Paste(h),
    ensures
        exists|j: int|
            j < i && 0 <= j && es[j] == EventView::Foreground(h)
                && run(StageView::Idle, cfg, es).1[j] is WriteClipboard,
{
    lemma_focus_invariant(cfg, es);
    let acts = run(StageView::Idle, cfg, es).1;
    assert(acts[i] is Paste);
    let j = choose|j: int| j < i && checked_at(es, acts, j, acts[i]->Paste_0);
    assert(j < i && 0 <= j && es[j] == EventView::Foreground(h) && acts[j] is WriteClipboard);
}

/// A run's action list holds a restore at `k`, and no finish after it up to
/// (not including) position `end`.
pub open spec fn restored_since(acts: Seq<ActionView>, k: int, end: int) -> bool {
    &&& 0 <= k < end
    &&& acts[k] == ActionView::RestoreClipboard
    &&& forall|m: int| k < m < end ==> !(#[trigger] acts[m] is Finish)
}

/// The result of a run that stopped because the backup failed.
pub open spec fn is_backup_failure(r: ResultView) -> bool {
    r matches Err(FaultView::BackupFailed(_))
}

proof fn lemma_restore_invariant(cfg: ConfigView, es: Seq<EventView>)
    ensures
        ({
            let (st, acts) = run(StageView::Idle, cfg, es);
            &&& st is Restoring ==> exists|k: int| restored_since(acts, k, acts.len() as int)
            &&& forall|i: int|
                0 <= i < acts.len() && (#[trigger] acts[i] matches ActionView::Finish(r)
                    && !is_backup_failure(r)) ==> exists|k: int| restored_since(acts, k, i)
        }),
    decreases es.len(),
{
    lemma_run_len(StageView::Idle, cfg, es);
    if es.len() > 0 {
        let prev = es.drop_last();
        lemma_restore_invariant(cfg, prev);
        lemma_run_len(StageView::Idle, cfg, prev);
        let (p, acts0) = run(StageView::Idle, cfg, prev);
        let (q, a) = next(p, cfg, es.last());
        let acts = acts0.push(a);
        let n = prev.len() as int;
        assert forall|k: int, end: int| end <= n && restored_since(acts0, k, end) implies restored_since(
            acts,
            k,
            end,
        ) by {
            assert forall|m: int| k < m < end implies !(#[trigger] acts[m] is Finish) by {
                assert(acts[m] == acts0[m]);
            }
        }
        if q is Restoring {
            if p is Restoring {
                let k = choose|k: int| restored_since(acts0, k, n);
                assert(restored_since(acts0, k, n));
                assert(a == ActionView::Ignore);
                assert(restored_since(acts, k, n + 1)) by {
                    assert forall|m: int| k < m < n + 1 implies !(#[trigger] acts[m] is Finish) by {
                        if m < n {
                            assert(acts[m] == acts0[m]);
                        }
                    }
                }
            } else {
                assert(a == ActionView::RestoreClipboard);
                assert(restored_since(acts, n, n + 1));
            }
        }
        assert forall|i: int|
            0 <= i < acts.len() && (#[trigger] acts[i] matches ActionView::Finish(r)
                && !is_backup_failure(r)) implies exists|k: int| restored_since(acts, k, i) by {
            if i < n {
                assert(acts0[i] == acts[i]);
                let k = choose|k: int| restored_since(acts0, k, i);
                assert(restored_since(acts, k, i));
            } else {
                assert(p is Restoring);
                let k = choose|k: int| restored_since(acts0, k, n);
                assert(restored_since(acts, k, i));
            }
        }
    }
}

/// Clipboard restore: in any run that starts idle, every finish other than
/// one caused by a failed backup comes after a restore of the saved
/// clipboard, with no other finish in between. The user's clipboard is put
/// back whatever step of the run failed.
pub proof fn law_restore_before_finish(cfg: ConfigView, es: Seq<EventView>, i: int, r: ResultView)
    requires
        0 <= i < run(StageView::Idle, cfg, es).1.len(),
        run(StageView::Idle, cfg, es).1[i] == ActionView::Finish(r),
        !is_backup_failure(r),
    ensures
        exists|k: int|
            0 <= k < i && run(StageView::Idle, cfg, es).1[k] == ActionView::RestoreClipboard && forall|
                m: int,
            |
                k < m < i ==> !(#[trigger] run(StageView::Idle, cfg, es).1[m] is Finish),
{
    lemma_restore_invariant(cfg, es);
    let acts = run(StageView::Idle, cfg, es).1;
    assert(acts[i] matches ActionView::Finish(r) && !is_backup_failure(r));
    let k = choose|k: int| restored_since(acts, k, i);
    assert(restored_since(acts, k, i));
}

/// Phrasebook first: when the target is Simplified Chinese and the copied
/// text is a known greeting, the phrasebook's rendering is used and no engine
/// is called; the run goes straight to the focus check.
pub proof fn law_phrasebook_first(cfg: ConfigView, target: u64, copied: Seq<char>)
    requires
        trimmed(copied).len() > 0,
        trimmed(cfg.target_language) == "zh-cn"@,
        phrase_zh_cn(normalized(trimmed(copied))) is Some,
    ensures
        next(StageView::Reading(target), cfg, EventView::SelectionRead(Ok(copied))) == (
            StageView::Checking(
                target,
                trimmed(copied),
                phrase_zh_cn(normalized(trimmed(copied)))->0,
                "phrasebook"@,
            ),
            ActionView::CheckForeground,
        ),
{
}

/// An empty field is never translated: when the copied text is only white
/// space the run restores the clipboard and ends with `NoText`.
pub proof fn law_empty_field_not_translated(cfg: ConfigView, target: u64, copied: Seq<char>)
    requires
        trimmed(copied).len() == 0,
    ensures
        next(StageView::Reading(target), cfg, EventView::SelectionRead(Ok(copied))) == (
            StageView::Restoring(Err(FaultView::NoText)),
            ActionView::RestoreClipboard,
        ),
{
}


/// The engine a job calls, pinned per setting: "marian" gives MarianMT with
/// the configured model folder, "deepl" DeepL with the DeepL key, "google"
/// Google Translate with the Google key, anything else the Windows Language
/// Pack engine. The job carries the text unchanged and the configured
/// languages trimmed.
pub proof fn law_job_uses_selected_engine(cfg: ConfigView, original: Seq<char>)
    ensures
        job_for(cfg, original).text == original,
        job_for(cfg, original).source == trimmed(cfg.source_language),
        job_for(cfg, original).target == trimmed(cfg.target_language),
        cfg.active_engine == "marian"@ ==> job_for(cfg, original).engine == EngineChoice::Marian(
            cfg.marian_model_path,
        ),
        cfg.active_engine == "deepl"@ ==> job_for(cfg, original).engine == EngineChoice::DeepL(
            cfg.deepl_api_key,
        ),
        cfg.active_engine == "google"@ ==> job_for(cfg, original).engine == EngineChoice::Google(
            cfg.google_api_key,
        ),
        (cfg.active_engine != "marian"@ && cfg.active_engine != "deepl"@ && cfg.active_engine
            != "google"@) ==> job_for(cfg, original).engine == EngineChoice::WindowsLp,
{
    crate::engine::router::lemma_engine_settings_distinct();
}

/// The engine a run calls once the field's text is read, when the phrasebook
/// does not answer: the run waits on the selected engine under its display
/// name, and the job sends that engine the trimmed text and the trimmed
/// configured languages ("marian" → MarianMT with the model folder,
/// "deepl" → DeepL with its key, "google" → Google Translate with its key,
/// anything else → Windows LP).
pub proof fn law_run_calls_selected_engine(cfg: ConfigView, target: u64, copied: Seq<char>)
    requires
        trimmed(copied).len() > 0,
        !(trimmed(cfg.target_language) == "zh-cn"@ && phrase_zh_cn(normalized(trimmed(copied))) is Some),
    ensures
        ({
            let (st, act) = next(StageView::Reading(target), cfg, EventView::SelectionRead(Ok(copied)));
            let o = trimmed(copied);
            let job = |e: EngineChoice|
                JobView {
                    engine: e,
                    text: o,
                    source: trimmed(cfg.source_language),
                    target: trimmed(cfg.target_language),
                };
            &&& cfg.active_engine == "marian"@ ==> st == StageView::Translating(target, o, "MarianMT"@)
                && act == ActionView::RunEngine(job(EngineChoice::Marian(cfg.marian_model_path)))
            &&& cfg.active_engine == "deepl"@ ==> st == StageView::Translating(target, o, "DeepL"@)
                && act == ActionView::RunEngine(job(EngineChoice::DeepL(cfg.deepl_api_key)))
            &&& cfg.active_engine == "google"@ ==> st == StageView::Translating(
                target,
                o,
                "Google Translate"@,
            ) && act == ActionView::RunEngine(job(EngineChoice::Google(cfg.google_api_key)))
            &&& (cfg.active_engine != "marian"@ && cfg.active_engine != "deepl"@
                && cfg.active_engine != "google"@) ==> st == StageView::Translating(
                target,
                o,
                "Windows LP"@,
            ) && act == ActionView::RunEngine(job(EngineChoice::WindowsLp))
        }),
{
    crate::engine::router::lemma_engine_settings_distinct();
}

/// The phrasebook table: each documented greeting, in Portuguese, English and
/// Spanish, and its Simplified Chinese rendering.
pub proof fn law_phrasebook_table()
    ensures
        phrase_zh_cn("bom dia"@) == Some("早上好"@),
        phrase_zh_cn("good morning"@) == Some("早上好"@),
        phrase_zh_cn("buenos dias"@) == Some("早上好"@),
        phrase_zh_cn("buenos días"@) == Some("早上好"@),
        phrase_zh_cn("boa tarde"@) == Some("下午好"@),
        phrase_zh_cn("good afternoon"@) == Some("下午好"@),
        phrase_zh_cn("buenas tardes"@) == Some("下午好"@),
        phrase_zh_cn("boa noite"@) == Some("晚上好"@),
        phrase_zh_cn("good evening"@) == Some("晚上好"@),
        phrase_zh_cn("buenas noches"@) == Some("晚上好"@),
        phrase_zh_cn("good night"@) == Some("晚安"@),
        phrase_zh_cn("olá"@) == Some("你好"@),
        phrase_zh_cn("ola"@) == Some("你好"@),
        phrase_zh_cn("hello"@) == Some("你好"@),
        phrase_zh_cn("hi"@) == Some("你好"@),
        phrase_zh_cn("hola"@) == Some("你好"@),
        phrase_zh_cn("tudo bem"@) == Some("你好吗？"@),
        phrase_zh_cn("como vai"@) == Some("你好吗？"@),
        phrase_zh_cn("obrigado"@) == Some("谢谢"@),
        phrase_zh_cn("obrigada"@) == Some("谢谢"@),
        phrase_zh_cn("thank you"@) == Some("谢谢"@),
        phrase_zh_cn("thanks"@) == Some("谢谢"@),
        phrase_zh_cn("gracias"@) == Some("谢谢"@),
        phrase_zh_cn("por favor"@) == Some("请"@),
{
    reveal_strlit("bom dia");
    reveal_strlit("boa tarde");
    reveal_strlit("boa noite");
    reveal_strlit("olá");
    reveal_strlit("ola");
    reveal_strlit("tudo bem");
    reveal_strlit("como vai");
    reveal_strlit("obrigado");
    reveal_strlit("obrigada");
    reveal_strlit("por favor");
    reveal_strlit("good morning");
    reveal_strlit("good afternoon");
    reveal_strlit("good evening");
    reveal_strlit("good night");
    reveal_strlit("hello");
    reveal_strlit("hi");
    reveal_strlit("thank you");
    reveal_strlit("thanks");
    reveal_strlit("buenos dias");
    reveal_strlit("buenos días");
    reveal_strlit("buenas tardes");
    reveal_strlit("buenas noches");
    reveal_strlit("hola");
    reveal_strlit("gracias");
    assert("bom dia"@.len() == 7);
    assert("boa tarde"@.len() == 9);
    assert("boa noite"@.len() == 9);
    assert("olá"@.len() == 3);
    assert("ola"@.len() == 3);
    assert("tudo bem"@.len() == 8);
    assert("como vai"@.len() == 8);
    assert("obrigado"@.len() == 8);
    assert("obrigada"@.len() == 8);
    assert("por favor"@.len() == 9);
    assert("good morning"@.len() == 12);
    assert("good afternoon"@.len() == 14);
    assert("good evening"@.len() == 12);
    assert("good night"@.len() == 10);
    assert("hello"@.len() == 5);
    assert("hi"@.len() == 2);
    assert("thank you"@.len() == 9);
    assert("thanks"@.len() == 6);
    assert("buenos dias"@.len() == 11);
    assert("buenos días"@.len() == 11);
    assert("buenas tardes"@.len() == 13);
    assert("buenas noches"@.len() == 13);
    assert("hola"@.len() == 4);
    assert("gracias"@.len() == 7);
    assert("boa noite"@[0] == 'b');
    assert("boa noite"@[4] == 'n');
    assert("boa tarde"@[0] == 'b');
    assert("boa tarde"@[4] == 't');
    assert("bom dia"@[0] == 'b');
    assert("buenas noches"@[7] == 'n');
    assert("buenas tardes"@[7] == 't');
    assert("buenos dias"@[8] == 'i');
    assert("buenos días"@[8] == 'í');
    assert("como vai"@[0] == 'c');
    assert("good evening"@[5] == 'e');
    assert("good morning"@[5] == 'm');
    assert("gracias"@[0] == 'g');
    assert("obrigada"@[0] == 'o');
    assert("obrigada"@[7] == 'a');
    assert("obrigado"@[0] == 'o');
    assert("obrigado"@[7] == 'o');
    assert("ola"@[2] == 'a');
    assert("olá"@[2] == 'á');
    assert("por favor"@[0] == 'p');
    assert("thank you"@[0] == 't');
    assert("tudo bem"@[0] == 't');
}

} // verus!
