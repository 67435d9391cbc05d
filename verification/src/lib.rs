//! Core logic of a push-to-talk dictation utility: the coordinator state
//! machine, settings and model catalogue, hotkey grammar, audio-buffer
//! arithmetic, the settings-file codec, and the model-download protocol.
//!
//! Everything here is pure compute on plain values; the surrounding process
//! (microphone streams, global shortcuts, windows, HTTP) feeds values in and
//! carries results out.

pub mod audio;
pub mod config;
pub mod download;
pub mod engine;
pub mod errors;
pub mod events;
pub mod formats;
pub mod hotkey;
pub mod ids;
pub mod info;
pub mod paste;
pub mod session;
pub mod settings;
pub mod settings_json;
pub mod state;
pub mod store;
pub mod text;
pub mod wav;

pub use state::AppState;
