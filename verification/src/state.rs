//! The coordinator: a single-writer state machine that drives one dictation
//! at a time. All of its operations are pure transitions on plain values;
//! the surrounding process performs the capture, inference and paste work
//! and reports the outcomes back as events.

use vstd::prelude::*;
use vstd::string::StringExecFns;

use crate::settings::HotkeyMode;
use crate::settings::Language;
use crate::settings::Settings;

verus! {

/// Minimum recording duration before a stop is allowed to proceed, in
/// milliseconds. Whisper-family models produce degraded output on shorter
/// segments, and real users' hotkey releases bounce.
pub const MIN_RECORDING_MS: u64 = 300;

/// Application state machine
#[derive(Debug, Clone, Copy, PartialEq, Eq, Structural)]
pub enum AppState {
    Idle,
    Recording,
    Transcribing,
    Error,
}

impl AppState {
    /// True exactly in the `Recording` state.
    pub fn is_recording(&self) -> (r: bool)
        ensures
            r == (*self == AppState::Recording),
    {
        matches!(self, AppState::Recording)
    }

    /// True while a dictation is in flight: recording or transcribing.
    pub fn is_busy(&self) -> (r: bool)
        ensures
            r == (*self == AppState::Recording || *self == AppState::Transcribing),
    {
        matches!(self, AppState::Recording | AppState::Transcribing)
    }
}

/// The transitions the design allows, each labelled by its triggering event:
/// capture start, stop-and-transcribe, cancel, and the two inference
/// outcomes. Everything else must leave the state alone.
pub open spec fn transition_allowed(pre: AppState, post: AppState) -> bool {
    ||| pre == post
    ||| (pre == AppState::Idle && post == AppState::Recording)
    ||| (pre == AppState::Recording && post == AppState::Transcribing)
    ||| (pre == AppState::Recording && post == AppState::Idle)
    ||| (pre == AppState::Transcribing && post == AppState::Idle)
}

/// The events the coordinator reacts to, abstracted from their payloads.
pub enum CoordEvent {
    HotkeyDown,
    CaptureFailed,
    HotkeyUp,
    Cancel,
    TranscriptionOk,
    TranscriptionErr,
}

/// The state reached from `s` on event `e` under hotkey mode `mode`.
pub open spec fn step_spec(mode: HotkeyMode, s: AppState, e: CoordEvent) -> AppState {
    match e {
        CoordEvent::HotkeyDown => if s == AppState::Idle {
            AppState::Recording
        } else {
            s
        },
        CoordEvent::CaptureFailed => s,
        CoordEvent::HotkeyUp => if mode == HotkeyMode::PushToTalk && s == AppState::Recording {
            AppState::Transcribing
        } else {
            s
        },
        CoordEvent::Cancel => if s == AppState::Recording {
            AppState::Idle
        } else {
            s
        },
        CoordEvent::TranscriptionOk => if s == AppState::Transcribing {
            AppState::Idle
        } else {
            s
        },
        CoordEvent::TranscriptionErr => if s == AppState::Transcribing {
            AppState::Idle
        } else {
            s
        },
    }
}

/// The state after running a whole event sequence from `s`.
pub open spec fn run_events_spec(mode: HotkeyMode, s: AppState, es: Seq<CoordEvent>) -> AppState
    decreases es.len(),
{
    if es.len() == 0 {
        s
    } else {
        run_events_spec(mode, step_spec(mode, s, es[0]), es.drop_first())
    }
}

/// Every single step the coordinator takes is one of the allowed
/// transitions.
pub proof fn lemma_step_lawful(mode: HotkeyMode, s: AppState, e: CoordEvent)
    ensures
        transition_allowed(s, step_spec(mode, s, e)),
{
}

/// For any sequence of hotkey, cancel and inference-outcome events, every
/// consecutive pair of states the coordinator passes through is one of the
/// allowed transitions; in particular the state never leaves the four-state
/// set, which its type already guarantees.
#[verifier::rlimit(60)]
pub proof fn lemma_event_runs_lawful(mode: HotkeyMode, s: AppState, es: Seq<CoordEvent>)
    ensures
        forall|i: int|
            0 <= i < es.len() ==> transition_allowed(
                run_events_spec(mode, s, #[trigger] es.take(i)),
                run_events_spec(mode, s, es.take(i + 1)),
            ),
    decreases es.len(),
{
    reveal_with_fuel(run_events_spec, 3);
    if es.len() > 0 {
        let s1 = step_spec(mode, s, es[0]);
        lemma_event_runs_lawful(mode, s1, es.drop_first());
        assert forall|i: int|
            0 <= i < es.len() implies transition_allowed(
            run_events_spec(mode, s, #[trigger] es.take(i)),
            run_events_spec(mode, s, es.take(i + 1)),
        ) by {
            if i == 0 {
                assert(es.take(0) =~= Seq::<CoordEvent>::empty());
                assert(es.take(1) =~= seq![es[0]]);
                assert(seq![es[0]].drop_first() =~= Seq::<CoordEvent>::empty());
                assert(run_events_spec(mode, s, es.take(0)) == s);
                assert(run_events_spec(mode, s, es.take(1)) == step_spec(mode, s, es[0]));
                lemma_step_lawful(mode, s, es[0]);
            } else {
                let tail = es.drop_first();
                assert(es.take(i).drop_first() =~= tail.take(i - 1));
                assert(es.take(i + 1).drop_first() =~= tail.take(i));
                assert(es.take(i)[0] == es[0]);
                assert(es.take(i + 1)[0] == es[0]);
                assert(run_events_spec(mode, s, es.take(i)) == run_events_spec(
                    mode,
                    s1,
                    tail.take(i - 1),
                ));
                assert(run_events_spec(mode, s, es.take(i + 1)) == run_events_spec(
                    mode,
                    s1,
                    tail.take(i),
                ));
                assert(transition_allowed(
                    run_events_spec(mode, s1, tail.take(i - 1)),
                    run_events_spec(mode, s1, tail.take(i)),
                ));
            }
        }
    }
}

/// How long a stop must still wait after `elapsed_ms` of recording.
pub open spec fn sleep_before_stop_spec(elapsed_ms: u64) -> u64 {
    if elapsed_ms < MIN_RECORDING_MS {
        (MIN_RECORDING_MS - elapsed_ms) as u64
    } else {
        0u64
    }
}

/// How long a stop must wait so that the recording appears at least
/// `MIN_RECORDING_MS` long.
pub fn sleep_before_stop_ms(elapsed_ms: u64) -> (r: u64)
    ensures
        r == sleep_before_stop_spec(elapsed_ms),
{
    if elapsed_ms < MIN_RECORDING_MS {
        MIN_RECORDING_MS - elapsed_ms
    } else {
        0
    }
}

/// A stop that arrives early always waits the difference out: the elapsed
/// time plus the prescribed wait never falls short of the minimum.
pub proof fn lemma_min_recording_duration(elapsed_ms: u64)
    ensures
        elapsed_ms + sleep_before_stop_spec(elapsed_ms) >= MIN_RECORDING_MS,
{
}

/// Central coordinator for the dictation workflow
pub struct AppController {
    state: AppState,
    settings: Settings,
    recording_start_ms: Option<u64>,
    last_transcription: Option<String>,
    last_error: Option<String>,
    model_ready: bool,
    /// Set when `cancel` arrives while transcribing: the worker's outcome is
    /// then observed but discarded.
    discard_result: bool,
}

impl AppController {
    pub closed spec fn spec_state(&self) -> AppState {
        self.state
    }

    pub closed spec fn spec_settings(&self) -> Settings {
        self.settings
    }

    pub closed spec fn spec_recording_start_ms(&self) -> Option<u64> {
        self.recording_start_ms
    }

    pub closed spec fn spec_last_transcription(&self) -> Option<Seq<char>> {
        match self.last_transcription {
            Some(t) => Some(t@),
            None => None,
        }
    }

    pub closed spec fn spec_last_error(&self) -> Option<Seq<char>> {
        match self.last_error {
            Some(t) => Some(t@),
            None => None,
        }
    }

    pub closed spec fn spec_model_ready(&self) -> bool {
        self.model_ready
    }

    pub closed spec fn spec_discards_result(&self) -> bool {
        self.discard_result
    }

    pub fn new(settings: Settings) -> (r: Self)
        ensures
            r.spec_state() == AppState::Idle,
            r.spec_settings() == settings,
            r.spec_recording_start_ms() is None,
            r.spec_last_transcription() is None,
            r.spec_last_error() is None,
            !r.spec_model_ready(),
            !r.spec_discards_result(),
    {
        AppController {
            state: AppState::Idle,
            settings,
            recording_start_ms: None,
            last_transcription: None,
            last_error: None,
            model_ready: false,
            discard_result: false,
        }
    }

    pub fn state(&self) -> (r: AppState)
        ensures
            r == self.spec_state(),
    {
        self.state
    }

    pub fn settings(&self) -> (r: &Settings)
        ensures
            *r == self.spec_settings(),
    {
        &self.settings
    }

    pub fn last_transcription(&self) -> (r: Option<&str>)
        ensures
            match r {
                Some(t) => self.spec_last_transcription() == Some(t@),
                None => self.spec_last_transcription() is None,
            },
    {
        match &self.last_transcription {
            Some(t) => Some(t.as_str()),
            None => None,
        }
    }

    pub fn last_error(&self) -> (r: Option<&str>)
        ensures
            match r {
                Some(t) => self.spec_last_error() == Some(t@),
                None => self.spec_last_error() is None,
            },
    {
        match &self.last_error {
            Some(t) => Some(t.as_str()),
            None => None,
        }
    }

    pub fn is_model_ready(&self) -> (r: bool)
        ensures
            r == self.spec_model_ready(),
    {
        self.model_ready
    }

    pub fn language(&self) -> (r: Language)
        ensures
            r == self.spec_settings().language,
    {
        self.settings.language
    }

    /// Whether a hotkey-down event must start a capture: only from `Idle`,
    /// in either hotkey mode. In toggle mode the stop side is handled by the
    /// alternate stop path, and further presses while busy are ignored.
    pub fn handle_hotkey_down(&self) -> (r: bool)
        ensures
            r == (self.spec_state() == AppState::Idle),
    {
        self.state == AppState::Idle
    }

    /// Commit a successful capture start.
    pub fn on_capture_started(&mut self, now_ms: u64)
        requires
            old(self).spec_state() == AppState::Idle,
        ensures
            final(self).spec_state() == AppState::Recording,
            final(self).spec_recording_start_ms() == Some(now_ms),
            final(self).spec_last_error() is None,
            final(self).spec_last_transcription() == old(self).spec_last_transcription(),
            final(self).spec_settings() == old(self).spec_settings(),
            final(self).spec_model_ready() == old(self).spec_model_ready(),
            !final(self).spec_discards_result(),
            transition_allowed(old(self).spec_state(), final(self).spec_state()),
    {
        self.state = AppState::Recording;
        self.recording_start_ms = Some(now_ms);
        self.last_error = None;
        self.discard_result = false;
    }

    /// Record that the capture source refused to start: the coordinator
    /// stays in `Idle` and surfaces the error.
    pub fn on_capture_start_failed(&mut self, message: &str)
        requires
            old(self).spec_state() == AppState::Idle,
        ensures
            final(self).spec_state() == AppState::Idle,
            final(self).spec_last_error() == Some(message@),
            final(self).spec_last_transcription() == old(self).spec_last_transcription(),
            final(self).spec_settings() == old(self).spec_settings(),
            transition_allowed(old(self).spec_state(), final(self).spec_state()),
    {
        self.last_error = Some(String::from_str(message));
    }

    /// Whether a hotkey-up event must stop the recording: push-to-talk mode
    /// while recording.
    pub fn should_stop_on_key_up(&self) -> (r: bool)
        ensures
            r == (self.spec_settings().hotkey_mode == HotkeyMode::PushToTalk && self.spec_state()
                == AppState::Recording),
    {
        self.settings.hotkey_mode == HotkeyMode::PushToTalk && self.state == AppState::Recording
    }

    /// How long the current recording has been running.
    pub fn recording_elapsed_ms(&self, now_ms: u64) -> (r: u64)
        ensures
            r == match self.spec_recording_start_ms() {
                Some(start) => if now_ms >= start {
                    (now_ms - start) as u64
                } else {
                    0u64
                },
                None => 0u64,
            },
    {
        match self.recording_start_ms {
            Some(start) => if now_ms >= start {
                now_ms - start
            } else {
                0
            },
            None => 0,
        }
    }

    /// Commit a stop: the captured buffer is on its way to the engine.
    pub fn stop_recording(&mut self)
        requires
            old(self).spec_state() == AppState::Recording,
        ensures
            final(self).spec_state() == AppState::Transcribing,
            final(self).spec_recording_start_ms() is None,
            final(self).spec_last_transcription() == old(self).spec_last_transcription(),
            final(self).spec_last_error() == old(self).spec_last_error(),
            final(self).spec_settings() == old(self).spec_settings(),
            final(self).spec_model_ready() == old(self).spec_model_ready(),
            final(self).spec_discards_result() == old(self).spec_discards_result(),
            transition_allowed(old(self).spec_state(), final(self).spec_state()),
    {
        self.state = AppState::Transcribing;
        self.recording_start_ms = None;
    }

    /// Observe a successful transcription. Returns whether the text must be
    /// pasted: never after a cancellation, and otherwise exactly when
    /// auto-paste is enabled. After a cancellation the stored transcription
    /// is left untouched.
    pub fn on_transcription_success(&mut self, text: &str) -> (paste: bool)
        requires
            old(self).spec_state() == AppState::Transcribing,
        ensures
            final(self).spec_state() == AppState::Idle,
            !final(self).spec_discards_result(),
            old(self).spec_discards_result() ==> final(self).spec_last_transcription() == old(
                self,
            ).spec_last_transcription(),
            !old(self).spec_discards_result() ==> final(self).spec_last_transcription() == Some(
                text@,
            ),
            paste == (!old(self).spec_discards_result() && old(self).spec_settings().auto_paste),
            final(self).spec_last_error() == old(self).spec_last_error(),
            final(self).spec_settings() == old(self).spec_settings(),
            final(self).spec_model_ready() == old(self).spec_model_ready(),
            transition_allowed(old(self).spec_state(), final(self).spec_state()),
    {
        let discarded = self.discard_result;
        if !discarded {
            self.last_transcription = Some(String::from_str(text));
        }
        self.discard_result = false;
        self.state = AppState::Idle;
        !discarded && self.settings.auto_paste
    }

    /// Observe a failed transcription: the error is stored and the
    /// coordinator returns to `Idle`. After a cancellation the outcome is
    /// discarded and the stored error is left untouched too.
    pub fn on_transcription_error(&mut self, message: &str)
        requires
            old(self).spec_state() == AppState::Transcribing,
        ensures
            final(self).spec_state() == AppState::Idle,
            !old(self).spec_discards_result() ==> final(self).spec_last_error() == Some(message@),
            old(self).spec_discards_result() ==> final(self).spec_last_error() == old(
                self,
            ).spec_last_error(),
            final(self).spec_last_transcription() == old(self).spec_last_transcription(),
            !final(self).spec_discards_result(),
            final(self).spec_settings() == old(self).spec_settings(),
            final(self).spec_model_ready() == old(self).spec_model_ready(),
            transition_allowed(old(self).spec_state(), final(self).spec_state()),
    {
        if !self.discard_result {
            self.last_error = Some(String::from_str(message));
        }
        self.discard_result = false;
        self.state = AppState::Idle;
    }

    /// Cancel a recording in progress; any other state is left alone.
    pub fn cancel_recording(&mut self)
        ensures
            old(self).spec_state() == AppState::Recording ==> final(self).spec_state()
                == AppState::Idle,
            old(self).spec_state() != AppState::Recording ==> *final(self) == *old(self),
            final(self).spec_last_transcription() == old(self).spec_last_transcription(),
            final(self).spec_last_error() == old(self).spec_last_error(),
            final(self).spec_settings() == old(self).spec_settings(),
            transition_allowed(old(self).spec_state(), final(self).spec_state()),
    {
        if self.state == AppState::Recording {
            self.state = AppState::Idle;
            self.recording_start_ms = None;
        }
    }

    /// Cancel whatever is in flight. While recording the capture is dropped
    /// at once; while transcribing the worker must be asked to abort (the
    /// return value) and its eventual outcome is discarded. Stored results
    /// are never modified.
    pub fn cancel(&mut self) -> (abort: bool)
        ensures
            old(self).spec_state() == AppState::Recording ==> (final(self).spec_state()
                == AppState::Idle && !abort),
            old(self).spec_state() == AppState::Transcribing ==> (final(self).spec_state()
                == AppState::Transcribing && final(self).spec_discards_result() && abort),
            (old(self).spec_state() != AppState::Recording && old(self).spec_state()
                != AppState::Transcribing) ==> (*final(self) == *old(self) && !abort),
            final(self).spec_last_transcription() == old(self).spec_last_transcription(),
            final(self).spec_last_error() == old(self).spec_last_error(),
            final(self).spec_settings() == old(self).spec_settings(),
            transition_allowed(old(self).spec_state(), final(self).spec_state()),
    {
        if self.state == AppState::Recording {
            self.state = AppState::Idle;
            self.recording_start_ms = None;
            false
        } else if self.state == AppState::Transcribing {
            self.discard_result = true;
            true
        } else {
            false
        }
    }

    pub fn set_model_ready(&mut self, ready: bool)
        ensures
            final(self).spec_model_ready() == ready,
            final(self).spec_state() == old(self).spec_state(),
            final(self).spec_settings() == old(self).spec_settings(),
            final(self).spec_last_transcription() == old(self).spec_last_transcription(),
            final(self).spec_last_error() == old(self).spec_last_error(),
    {
        self.model_ready = ready;
    }

    /// Replace the whole settings record.
    pub fn update_settings(&mut self, settings: Settings)
        ensures
            final(self).spec_settings() == settings,
            final(self).spec_state() == old(self).spec_state(),
            final(self).spec_last_transcription() == old(self).spec_last_transcription(),
            final(self).spec_last_error() == old(self).spec_last_error(),
    {
        self.settings = settings;
    }

    pub fn set_language(&mut self, language: Language)
        ensures
            final(self).spec_settings() == (Settings {
                language,
                ..old(self).spec_settings()
            }),
            final(self).spec_state() == old(self).spec_state(),
    {
        self.settings.language = language;
    }

    /// Choosing a model explicitly also turns auto-selection off, so the
    /// choice takes effect.
    pub fn set_whisper_model(&mut self, model: crate::settings::WhisperModel)
        ensures
            final(self).spec_settings() == (Settings {
                whisper_model: model,
                auto_select_model: false,
                ..old(self).spec_settings()
            }),
            final(self).spec_state() == old(self).spec_state(),
    {
        self.settings.whisper_model = model;
        self.settings.auto_select_model = false;
    }

    pub fn set_auto_select_model(&mut self, enabled: bool)
        ensures
            final(self).spec_settings() == (Settings {
                auto_select_model: enabled,
                ..old(self).spec_settings()
            }),
            final(self).spec_state() == old(self).spec_state(),
    {
        self.settings.auto_select_model = enabled;
    }

    pub fn set_hotkey_mode(&mut self, mode: HotkeyMode)
        ensures
            final(self).spec_settings() == (Settings {
                hotkey_mode: mode,
                ..old(self).spec_settings()
            }),
            final(self).spec_state() == old(self).spec_state(),
    {
        self.settings.hotkey_mode = mode;
    }

    pub fn set_auto_paste(&mut self, enabled: bool)
        ensures
            final(self).spec_settings() == (Settings {
                auto_paste: enabled,
                ..old(self).spec_settings()
            }),
            final(self).spec_state() == old(self).spec_state(),
    {
        self.settings.auto_paste = enabled;
    }

    pub fn set_show_overlay(&mut self, enabled: bool)
        ensures
            final(self).spec_settings() == (Settings {
                show_overlay: enabled,
                ..old(self).spec_settings()
            }),
            final(self).spec_state() == old(self).spec_state(),
    {
        self.settings.show_overlay = enabled;
    }

    pub fn set_hotkey(&mut self, hotkey: &str)
        ensures
            final(self).spec_settings().hotkey@ == hotkey@,
            final(self).spec_settings().language == old(self).spec_settings().language,
            final(self).spec_settings().whisper_model == old(self).spec_settings().whisper_model,
            final(self).spec_settings().hotkey_mode == old(self).spec_settings().hotkey_mode,
            final(self).spec_settings().show_overlay == old(self).spec_settings().show_overlay,
            final(self).spec_settings().auto_paste == old(self).spec_settings().auto_paste,
            final(self).spec_settings().auto_select_model == old(
                self,
            ).spec_settings().auto_select_model,
            final(self).spec_state() == old(self).spec_state(),
    {
        self.settings.hotkey = String::from_str(hotkey);
    }
}

/// After a cancellation observed while transcribing, a later successful
/// outcome neither changes the stored transcription nor pastes, whatever
/// text the worker eventually produced.
pub proof fn lemma_cancel_discards_outcome(pre: AppController, text: Seq<char>)
    requires
        pre.spec_state() == AppState::Transcribing,
        pre.spec_discards_result(),
    ensures
        forall|post: AppController, paste: bool|
            #[trigger] on_transcription_success_relation(pre, post, text, paste) ==> (
            post.spec_last_transcription() == pre.spec_last_transcription() && !paste),
{
}

/// What `on_transcription_success` promises, restated as a relation so laws
/// can quantify over it.
pub open spec fn on_transcription_success_relation(
    pre: AppController,
    post: AppController,
    text: Seq<char>,
    paste: bool,
) -> bool {
    &&& post.spec_state() == AppState::Idle
    &&& (pre.spec_discards_result() ==> post.spec_last_transcription()
        == pre.spec_last_transcription())
    &&& (!pre.spec_discards_result() ==> post.spec_last_transcription() == Some(text))
    &&& paste == (!pre.spec_discards_result() && pre.spec_settings().auto_paste)
}

} // verus!
