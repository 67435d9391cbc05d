use sagascript::text::ascii_lower;
use sagascript::text::chars_of;
use sagascript::text::chars_to_string;
use sagascript::text::str_eq;

#[test]
fn ascii_lower_folds_letters_only() {
    assert_eq!(ascii_lower("AbC"), "abc");
    assert_eq!(ascii_lower("CONTROL+Shift+F1"), "control+shift+f1");
    assert_eq!(ascii_lower("already lower 123 .,"), "already lower 123 .,");
    assert_eq!(ascii_lower(""), "");
}

#[test]
fn chars_roundtrip_through_vec() {
    let cs = chars_of("push-to-talk");
    assert_eq!(cs.len(), 12);
    assert_eq!(chars_to_string(&cs), "push-to-talk");
}

#[test]
fn str_eq_is_exact() {
    assert!(str_eq("toggle", "toggle"));
    assert!(!str_eq("toggle", "Toggle"));
    assert!(!str_eq("toggle", "toggl"));
    assert!(str_eq("", ""));
}
