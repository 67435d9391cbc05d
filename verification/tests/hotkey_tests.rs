use sagascript::hotkey::HotkeyService;
use sagascript::hotkey::validate_hotkey;

// -- validate_hotkey --

#[test]
fn validate_hotkey_valid_shortcuts() {
    let valid = [
        "Control+Shift+Space",
        "Option+Space",
        "Alt+Space",
        "Command+A",
        "CmdOrCtrl+Space",
        "Ctrl+Shift+Alt+F1",
        "Super+KeyX",
        "Shift+Enter",
        "Control+Tab",
        "CommandOrControl+Z",
    ];
    for s in valid {
        assert!(validate_hotkey(s).is_ok(), "should be valid: {s}");
    }
}

#[test]
fn validate_hotkey_case_insensitive() {
    assert!(validate_hotkey("control+shift+space").is_ok());
    assert!(validate_hotkey("CONTROL+SHIFT+SPACE").is_ok());
    assert!(validate_hotkey("Control+SHIFT+Space").is_ok());
}

#[test]
fn validate_hotkey_rejects_bare_key() {
    let err = validate_hotkey("Space").unwrap_err();
    assert!(err.message().contains("modifier is required"));
}

#[test]
fn validate_hotkey_rejects_unknown_key() {
    let err = validate_hotkey("Control+FooBar").unwrap_err();
    assert!(err.message().contains("unknown key"));
}

#[test]
fn validate_hotkey_rejects_modifier_as_key() {
    let err = validate_hotkey("Control+Shift").unwrap_err();
    assert!(err.message().contains("is a modifier"));
}

#[test]
fn validate_hotkey_rejects_empty() {
    assert!(validate_hotkey("").is_err());
}

#[test]
fn validate_hotkey_rejects_double_plus() {
    assert!(validate_hotkey("Control++Space").is_err());
}

#[test]
fn validate_hotkey_rejects_unknown_modifier() {
    let err = validate_hotkey("Hyper+Space").unwrap_err();
    assert!(err.message().contains("unknown modifier"));
}

#[test]
fn validate_hotkey_rejects_key_as_modifier() {
    let err = validate_hotkey("Space+Control+A").unwrap_err();
    assert!(err.message().contains("is a key, not a modifier"));
}

#[test]
fn validate_hotkey_trims_token_whitespace() {
    assert!(validate_hotkey("Control + Shift + Space").is_ok());
}

// -- HotkeyService --

#[test]
fn new_has_no_shortcut() {
    let svc = HotkeyService::new();
    assert!(svc.current_shortcut().is_none());
}

#[test]
fn new_is_not_suspended() {
    let svc = HotkeyService::new();
    assert!(!svc.is_suspended());
}

#[test]
fn set_shortcut_stores_value() {
    let mut svc = HotkeyService::new();
    svc.set_shortcut("Control+Shift+Space");
    assert_eq!(svc.current_shortcut(), Some("Control+Shift+Space"));
}

#[test]
fn set_shortcut_overwrites_previous() {
    let mut svc = HotkeyService::new();
    svc.set_shortcut("Control+Shift+Space");
    svc.set_shortcut("Alt+D");
    assert_eq!(svc.current_shortcut(), Some("Alt+D"));
}

#[test]
fn suspend_and_resume() {
    let mut svc = HotkeyService::new();
    assert!(!svc.is_suspended());

    svc.suspend();
    assert!(svc.is_suspended());

    svc.resume();
    assert!(!svc.is_suspended());
}

#[test]
fn suspend_is_idempotent() {
    let mut svc = HotkeyService::new();
    svc.suspend();
    svc.suspend();
    assert!(svc.is_suspended());
    svc.resume();
    assert!(!svc.is_suspended());
}
