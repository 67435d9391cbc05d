use sagascript::events::ERROR;
use sagascript::events::MODEL_DOWNLOAD_PROGRESS;
use sagascript::events::MODEL_READY;
use sagascript::events::STATE_CHANGED;
use sagascript::events::TRANSCRIPTION_PROGRESS;
use sagascript::events::TRANSCRIPTION_RESULT;
use sagascript::session::MAX_FILES;
use sagascript::session::MAX_FILE_SIZE;
use sagascript::session::app_session_id;
use sagascript::session::dictation_session_id;
use sagascript::session::rotated_log_name;
use sagascript::session::rotation_needed;

#[test]
fn event_names_are_kebab_case() {
    let events = [
        STATE_CHANGED,
        TRANSCRIPTION_RESULT,
        TRANSCRIPTION_PROGRESS,
        ERROR,
        MODEL_DOWNLOAD_PROGRESS,
        MODEL_READY,
    ];
    for name in events {
        assert!(!name.is_empty());
        assert!(
            !name.contains('_'),
            "event '{name}' uses underscore instead of kebab-case"
        );
        assert!(
            !name.contains(' '),
            "event '{name}' contains spaces"
        );
    }
}

#[test]
fn event_names_are_unique() {
    let events = [
        STATE_CHANGED,
        TRANSCRIPTION_RESULT,
        TRANSCRIPTION_PROGRESS,
        ERROR,
        MODEL_DOWNLOAD_PROGRESS,
        MODEL_READY,
    ];
    for (i, a) in events.iter().enumerate() {
        for (j, b) in events.iter().enumerate() {
            if i != j {
                assert_ne!(a, b, "duplicate event name: {a}");
            }
        }
    }
}

#[test]
fn constants() {
    assert_eq!(MAX_FILE_SIZE, 5_000_000);
    assert_eq!(MAX_FILES, 5);
}

#[test]
fn app_session_id_format() {
    let id = app_session_id();
    assert!(id.starts_with("app-"), "got: {}", id);
    // "app-" + 8 uuid chars = 12 total
    assert_eq!(id.len(), 12);
}

#[test]
fn dictation_session_id_format() {
    let id = dictation_session_id();
    assert!(id.starts_with("dict-"), "got: {id}");
    assert_eq!(id.len(), 13); // "dict-" + 8 uuid chars
}

#[test]
fn multiple_sessions_get_unique_ids() {
    let id1 = dictation_session_id();
    let id2 = dictation_session_id();
    assert_ne!(id1, id2);
}

#[test]
fn rotation_threshold() {
    assert!(!rotation_needed(4_999_999));
    assert!(rotation_needed(5_000_000));
    assert!(rotation_needed(5_000_001));
}

#[test]
fn rotated_log_names() {
    assert_eq!(rotated_log_name(1), "sagascript.1.log");
    assert_eq!(rotated_log_name(5), "sagascript.5.log");
    assert_eq!(rotated_log_name(12), "sagascript.12.log");
    assert_eq!(rotated_log_name(0), "sagascript.0.log");
    assert_eq!(rotated_log_name(305), "sagascript.305.log");
}
