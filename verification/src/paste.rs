//! What pasting does, decided ahead of doing it: set the clipboard, strike
//! the paste chord only where the platform permits synthetic input, and
//! schedule the clipboard's restoration. The clipboard and keystroke calls
//! themselves run outside, on the platform main thread.

use vstd::prelude::*;

use crate::errors::DictationError;

verus! {

/// How long after the paste keystroke the previous clipboard contents are
/// restored, in milliseconds.
pub const CLIPBOARD_RESTORE_DELAY_MS: u64 = 100;

/// Service for pasting transcribed text into the active application.
pub struct PasteService;

/// The steps one paste performs.
pub struct PastePlan {
    /// Replace the clipboard with the new text (after saving the old).
    pub set_clipboard: bool,
    /// Synthesise the platform paste chord.
    pub keystroke: bool,
    /// Restore the saved clipboard this many milliseconds later.
    pub restore_after_ms: u64,
}

impl PasteService {
    pub fn new() -> (r: Self) {
        PasteService
    }

    /// Decide what a paste of the given text must do: nothing for empty
    /// text; otherwise set the clipboard, and strike the keystroke only
    /// when the accessibility permission is granted.
    pub fn plan(&self, text_len: usize, accessibility_trusted: bool) -> (r: PastePlan)
        ensures
            r.set_clipboard == (text_len > 0),
            r.keystroke == (text_len > 0 && accessibility_trusted),
            r.restore_after_ms == CLIPBOARD_RESTORE_DELAY_MS,
    {
        PastePlan {
            set_clipboard: text_len > 0,
            keystroke: text_len > 0 && accessibility_trusted,
            restore_after_ms: CLIPBOARD_RESTORE_DELAY_MS,
        }
    }

    /// The outcome a paste reports: success for empty text or a permitted
    /// keystroke; the accessibility error exactly when text was placed on
    /// the clipboard but the keystroke was not allowed.
    pub fn outcome(&self, text_len: usize, accessibility_trusted: bool) -> (r: Result<
        (),
        DictationError,
    >)
        ensures
            r is Ok <==> (text_len == 0 || accessibility_trusted),
            r matches Err(e) ==> e is AccessibilityPermissionDenied,
    {
        if text_len > 0 && !accessibility_trusted {
            Err(DictationError::AccessibilityPermissionDenied)
        } else {
            Ok(())
        }
    }
}

} // verus!
