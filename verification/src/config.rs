//! The compute half of the `config` command family: key validation, value
//! formatting, and the pure apply/reset edits on a settings record. The
//! surrounding process only loads, prints and saves.

use vstd::prelude::*;
use vstd::string::StringExecFns;

use crate::errors::DictationError;
use crate::hotkey::hotkey_error_spec;
use crate::hotkey::valid_hotkey_spec;
use crate::hotkey::validate_hotkey;
use crate::ids::hotkey_mode_code;
use crate::ids::hotkey_mode_code_spec;
use crate::ids::hotkey_mode_from_code;
use crate::ids::hotkey_mode_from_wire_spec;
use crate::ids::language_code;
use crate::ids::language_code_spec;
use crate::ids::language_from_code;
use crate::ids::language_from_code_spec;
use crate::ids::model_from_code;
use crate::ids::model_from_wire_spec;
use crate::ids::model_id_spec;
use crate::ids::model_id_string;
use crate::settings::Settings;
use crate::settings_json::SettingsV;
use crate::settings_json::settings_view;
use crate::text::str_eq;

verus! {

/// The setting keys the `config` commands accept.
pub open spec fn is_valid_key_spec(k: Seq<char>) -> bool {
    ||| k == "language"@
    ||| k == "whisper_model"@
    ||| k == "hotkey_mode"@
    ||| k == "show_overlay"@
    ||| k == "auto_paste"@
    ||| k == "auto_select_model"@
    ||| k == "hotkey"@
}

/// The message given for a key outside the vocabulary.
pub open spec fn unknown_key_message_spec(k: Seq<char>) -> Seq<char> {
    "Unknown setting '"@ + k
        + "'. Valid keys: language, whisper_model, hotkey_mode, show_overlay, auto_paste, auto_select_model, hotkey"@
}

/// Check a setting key against the vocabulary.
pub fn validate_key(key: &str) -> (r: Result<(), DictationError>)
    ensures
        r is Ok <==> is_valid_key_spec(key@),
        r matches Err(e) ==> (e matches DictationError::SettingsError(m) && m@
            == unknown_key_message_spec(key@)),
{
    if str_eq(key, "language") || str_eq(key, "whisper_model") || str_eq(key, "hotkey_mode")
        || str_eq(key, "show_overlay") || str_eq(key, "auto_paste") || str_eq(
        key,
        "auto_select_model",
    ) || str_eq(key, "hotkey") {
        Ok(())
    } else {
        let m = String::from_str("Unknown setting '").concat(key).concat(
            "'. Valid keys: language, whisper_model, hotkey_mode, show_overlay, auto_paste, auto_select_model, hotkey",
        );
        proof {
            assert(m@ =~= unknown_key_message_spec(key@));
        }
        Err(DictationError::SettingsError(m))
    }
}

/// The printed value of each setting, as `config get` and `config list`
/// show it; an unknown key prints as `unknown`.
pub open spec fn setting_value_spec(s: SettingsV, k: Seq<char>) -> Seq<char> {
    if k == "language"@ {
        language_code_spec(s.language)
    } else if k == "whisper_model"@ {
        model_id_spec(s.whisper_model)
    } else if k == "hotkey_mode"@ {
        hotkey_mode_code_spec(s.hotkey_mode)
    } else if k == "show_overlay"@ {
        if s.show_overlay {
            "true"@
        } else {
            "false"@
        }
    } else if k == "auto_paste"@ {
        if s.auto_paste {
            "true"@
        } else {
            "false"@
        }
    } else if k == "auto_select_model"@ {
        if s.auto_select_model {
            "true"@
        } else {
            "false"@
        }
    } else if k == "hotkey"@ {
        s.hotkey
    } else {
        "unknown"@
    }
}

/// Format one setting for display.
pub fn get_setting_value(settings: &Settings, key: &str) -> (r: String)
    ensures
        r@ == setting_value_spec(settings_view(*settings), key@),
{
    if str_eq(key, "language") {
        String::from_str(language_code(settings.language))
    } else if str_eq(key, "whisper_model") {
        String::from_str(model_id_string(settings.whisper_model))
    } else if str_eq(key, "hotkey_mode") {
        String::from_str(hotkey_mode_code(settings.hotkey_mode))
    } else if str_eq(key, "show_overlay") {
        if settings.show_overlay {
            String::from_str("true")
        } else {
            String::from_str("false")
        }
    } else if str_eq(key, "auto_paste") {
        if settings.auto_paste {
            String::from_str("true")
        } else {
            String::from_str("false")
        }
    } else if str_eq(key, "auto_select_model") {
        if settings.auto_select_model {
            String::from_str("true")
        } else {
            String::from_str("false")
        }
    } else if str_eq(key, "hotkey") {
        settings.hotkey.clone()
    } else {
        String::from_str("unknown")
    }
}

/// The message given for a value that is not `true` or `false`.
pub open spec fn invalid_bool_message_spec(v: Seq<char>, k: Seq<char>) -> Seq<char> {
    "Invalid value '"@ + v + "' for "@ + k + ". Must be 'true' or 'false'."@
}

/// Which boolean a wire string denotes: exactly `true` or `false`.
pub open spec fn bool_from_wire_spec(v: Seq<char>) -> Option<bool> {
    if v == "true"@ {
        Some(true)
    } else if v == "false"@ {
        Some(false)
    } else {
        None
    }
}

/// Parse a boolean setting value: exactly `true` or `false`.
pub fn parse_bool(value: &str, key: &str) -> (r: Result<bool, DictationError>)
    ensures
        r matches Ok(b) ==> bool_from_wire_spec(value@) == Some(b),
        r is Ok <==> bool_from_wire_spec(value@) is Some,
        r matches Err(e) ==> (e matches DictationError::SettingsError(m) && m@
            == invalid_bool_message_spec(value@, key@)),
{
    if str_eq(value, "true") {
        Ok(true)
    } else if str_eq(value, "false") {
        Ok(false)
    } else {
        let m = String::from_str("Invalid value '").concat(value).concat("' for ").concat(
            key,
        ).concat(". Must be 'true' or 'false'.");
        proof {
            assert(m@ =~= invalid_bool_message_spec(value@, key@));
        }
        Err(DictationError::SettingsError(m))
    }
}

/// The message given for an enum value the key does not accept.
pub open spec fn invalid_value_message_spec(v: Seq<char>, k: Seq<char>) -> Seq<char> {
    "Invalid value '"@ + v + "' for "@ + k + ". Run 'sagascript config get "@ + k
        + "' to see current value."@
}

fn invalid_value_error(value: &str, key: &str) -> (r: DictationError)
    ensures
        r matches DictationError::SettingsError(m) && m@ == invalid_value_message_spec(
            value@,
            key@,
        ),
{
    let m = String::from_str("Invalid value '").concat(value).concat("' for ").concat(
        key,
    ).concat(". Run 'sagascript config get ").concat(key).concat("' to see current value.");
    proof {
        assert(m@ =~= invalid_value_message_spec(value@, key@));
    }
    DictationError::SettingsError(m)
}

/// The exact diagnostic `config set` gives, or `None` when the edit
/// succeeds: unknown keys first, then the per-key value check.
pub open spec fn apply_set_error_spec(k: Seq<char>, v: Seq<char>) -> Option<Seq<char>> {
    if !is_valid_key_spec(k) {
        Some(unknown_key_message_spec(k))
    } else if k == "language"@ {
        if language_from_code_spec(v) is Some {
            None
        } else {
            Some(invalid_value_message_spec(v, k))
        }
    } else if k == "whisper_model"@ {
        if model_from_wire_spec(v) is Some {
            None
        } else {
            Some(invalid_value_message_spec(v, k))
        }
    } else if k == "hotkey_mode"@ {
        if hotkey_mode_from_wire_spec(v) is Some {
            None
        } else {
            Some(invalid_value_message_spec(v, k))
        }
    } else if k == "show_overlay"@ || k == "auto_paste"@ || k == "auto_select_model"@ {
        if bool_from_wire_spec(v) is Some {
            None
        } else {
            Some(invalid_bool_message_spec(v, k))
        }
    } else {
        hotkey_error_spec(v)
    }
}

/// What `config set` turns the settings into, when it succeeds.
pub open spec fn apply_set_spec(s: SettingsV, k: Seq<char>, v: Seq<char>) -> Option<SettingsV> {
    if k == "language"@ {
        match language_from_code_spec(v) {
            Some(l) => Some(SettingsV { language: l, ..s }),
            None => None,
        }
    } else if k == "whisper_model"@ {
        match model_from_wire_spec(v) {
            Some(m) => Some(SettingsV { whisper_model: m, ..s }),
            None => None,
        }
    } else if k == "hotkey_mode"@ {
        match hotkey_mode_from_wire_spec(v) {
            Some(m) => Some(SettingsV { hotkey_mode: m, ..s }),
            None => None,
        }
    } else if k == "show_overlay"@ {
        match bool_from_wire_spec(v) {
            Some(b) => Some(SettingsV { show_overlay: b, ..s }),
            None => None,
        }
    } else if k == "auto_paste"@ {
        match bool_from_wire_spec(v) {
            Some(b) => Some(SettingsV { auto_paste: b, ..s }),
            None => None,
        }
    } else if k == "auto_select_model"@ {
        match bool_from_wire_spec(v) {
            Some(b) => Some(SettingsV { auto_select_model: b, ..s }),
            None => None,
        }
    } else if k == "hotkey"@ {
        if valid_hotkey_spec(v) {
            Some(SettingsV { hotkey: v, ..s })
        } else {
            None
        }
    } else {
        None
    }
}

/// Apply one `config set key value` edit to a settings record. Succeeds
/// exactly when the key is known and the value parses for it; the hotkey
/// value must pass the shortcut grammar.
#[verifier::rlimit(50)]
pub fn apply_set(settings: &Settings, key: &str, value: &str) -> (r: Result<
    Settings,
    DictationError,
>)
    ensures
        r matches Ok(s2) ==> apply_set_spec(settings_view(*settings), key@, value@) == Some(
            settings_view(s2),
        ),
        r is Ok <==> apply_set_spec(settings_view(*settings), key@, value@) is Some,
        r matches Err(e) ==> (e matches DictationError::SettingsError(m)
            && apply_set_error_spec(key@, value@) == Some(m@)),
{
    validate_key(key)?;
    let mut s = settings.clone_fields();
    if str_eq(key, "language") {
        match language_from_code(value) {
            Some(l) => {
                s.language = l;
                Ok(s)
            },
            None => Err(invalid_value_error(value, key)),
        }
    } else if str_eq(key, "whisper_model") {
        match model_from_code(value) {
            Some(m) => {
                s.whisper_model = m;
                Ok(s)
            },
            None => Err(invalid_value_error(value, key)),
        }
    } else if str_eq(key, "hotkey_mode") {
        match hotkey_mode_from_code(value) {
            Some(m) => {
                s.hotkey_mode = m;
                Ok(s)
            },
            None => Err(invalid_value_error(value, key)),
        }
    } else if str_eq(key, "show_overlay") {
        let b = parse_bool(value, key)?;
        s.show_overlay = b;
        Ok(s)
    } else if str_eq(key, "auto_paste") {
        let b = parse_bool(value, key)?;
        s.auto_paste = b;
        Ok(s)
    } else if str_eq(key, "auto_select_model") {
        let b = parse_bool(value, key)?;
        s.auto_select_model = b;
        Ok(s)
    } else {
        proof {
            assert(key@ == "hotkey"@);
        }
        validate_hotkey(value)?;
        s.hotkey = String::from_str(value);
        Ok(s)
    }
}

/// What `config reset key` turns the settings into.
pub open spec fn apply_reset_spec(s: SettingsV, k: Seq<char>) -> SettingsV {
    let d = crate::settings_json::default_settings_spec();
    if k == "language"@ {
        SettingsV { language: d.language, ..s }
    } else if k == "whisper_model"@ {
        SettingsV { whisper_model: d.whisper_model, ..s }
    } else if k == "hotkey_mode"@ {
        SettingsV { hotkey_mode: d.hotkey_mode, ..s }
    } else if k == "show_overlay"@ {
        SettingsV { show_overlay: d.show_overlay, ..s }
    } else if k == "auto_paste"@ {
        SettingsV { auto_paste: d.auto_paste, ..s }
    } else if k == "auto_select_model"@ {
        SettingsV { auto_select_model: d.auto_select_model, ..s }
    } else if k == "hotkey"@ {
        SettingsV { hotkey: d.hotkey, ..s }
    } else {
        s
    }
}

/// Reset one setting to its default, validating the key first.
pub fn apply_reset(settings: &Settings, key: &str) -> (r: Result<Settings, DictationError>)
    ensures
        r matches Ok(s2) ==> settings_view(s2) == apply_reset_spec(
            settings_view(*settings),
            key@,
        ),
        r is Ok <==> is_valid_key_spec(key@),
        r matches Err(e) ==> (e matches DictationError::SettingsError(m) && m@
            == unknown_key_message_spec(key@)),
{
    validate_key(key)?;
    let d = Settings::default();
    let mut s = settings.clone_fields();
    if str_eq(key, "language") {
        s.language = d.language;
    } else if str_eq(key, "whisper_model") {
        s.whisper_model = d.whisper_model;
    } else if str_eq(key, "hotkey_mode") {
        s.hotkey_mode = d.hotkey_mode;
    } else if str_eq(key, "show_overlay") {
        s.show_overlay = d.show_overlay;
    } else if str_eq(key, "auto_paste") {
        s.auto_paste = d.auto_paste;
    } else if str_eq(key, "auto_select_model") {
        s.auto_select_model = d.auto_select_model;
    } else {
        s.hotkey = d.hotkey;
    }
    Ok(s)
}

} // verus!
