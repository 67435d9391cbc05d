//! The settings file: a flat JSON object of strings, booleans and other
//! scalar tokens. Reading, merging and writing all happen on the parsed
//! field list, so keys the library does not know survive a save untouched.
//!
//! The grammar covers exactly what this store writes: one object whose
//! values are quoted strings (with `\"` and `\\` escapes), `true`, `false`,
//! or bare scalar tokens such as numbers and `null`. Anything else fails to
//! parse, and loading falls back to defaults.

use vstd::prelude::*;
use vstd::string::StringExecFns;

use crate::ids::hotkey_mode_code;
use crate::ids::hotkey_mode_code_spec;
use crate::ids::hotkey_mode_from_code;
use crate::ids::hotkey_mode_from_wire_spec;
use crate::ids::language_code;
use crate::ids::language_code_spec;
use crate::ids::language_from_code;
use crate::ids::language_from_code_spec;
use crate::ids::lemma_hotkey_mode_code_roundtrip;
use crate::ids::lemma_language_code_strict_roundtrip;
use crate::ids::lemma_model_id_roundtrip;
use crate::ids::model_from_code;
use crate::ids::model_from_wire_spec;
use crate::ids::model_id_spec;
use crate::ids::model_id_string;
use crate::settings::HotkeyMode;
use crate::settings::Language;
use crate::settings::Settings;
use crate::settings::WhisperModel;
use crate::settings::default_hotkey_spec;
use crate::text::chars_of;
use crate::text::chars_to_string;
use crate::text::str_eq;

verus! {

/// One scalar value in the settings object.
pub enum JsonScalar {
    /// A quoted string.
    Text(String),
    /// `true` or `false`.
    Flag(bool),
    /// Any other bare token (a number, `null`), kept verbatim.
    Token(String),
}

/// One `key: value` entry of the settings object.
pub struct JsonField {
    pub key: String,
    pub value: JsonScalar,
}

/// Spec-level mirror of `JsonScalar`.
pub enum JsonScalarV {
    TextV(Seq<char>),
    FlagV(bool),
    TokenV(Seq<char>),
}

/// Spec-level mirror of `JsonField`.
pub struct JsonFieldV {
    pub key: Seq<char>,
    pub value: JsonScalarV,
}

pub open spec fn scalar_view(s: JsonScalar) -> JsonScalarV {
    match s {
        JsonScalar::Text(t) => JsonScalarV::TextV(t@),
        JsonScalar::Flag(b) => JsonScalarV::FlagV(b),
        JsonScalar::Token(t) => JsonScalarV::TokenV(t@),
    }
}

pub open spec fn field_view(f: JsonField) -> JsonFieldV {
    JsonFieldV { key: f.key@, value: scalar_view(f.value) }
}

pub open spec fn fields_view(fs: Seq<JsonField>) -> Seq<JsonFieldV> {
    fs.map_values(|f: JsonField| field_view(f))
}

// --- Parsing, specified index by index ---

pub open spec fn is_ws_char_spec(c: char) -> bool {
    c == ' ' || c == '\t' || c == '\n' || c == '\r'
}

/// Characters a bare scalar token may consist of.
pub open spec fn is_token_char_spec(c: char) -> bool {
    ||| ('0' <= c && c <= '9')
    ||| ('a' <= c && c <= 'z')
    ||| ('A' <= c && c <= 'Z')
    ||| c == '-'
    ||| c == '+'
    ||| c == '.'
}

/// The first index at or after `i` holding a non-whitespace character.
pub open spec fn skip_ws_spec(t: Seq<char>, i: int) -> int
    decreases t.len() - i,
{
    if 0 <= i < t.len() && is_ws_char_spec(t[i]) {
        skip_ws_spec(t, i + 1)
    } else {
        i
    }
}

/// Parse the body of a quoted string starting at `i` (after the opening
/// quote): the decoded characters and the index after the closing quote.
pub open spec fn parse_string_body_spec(t: Seq<char>, i: int) -> Option<(Seq<char>, int)>
    decreases t.len() - i,
{
    if i < 0 || i >= t.len() {
        None
    } else if t[i] == '"' {
        Some((Seq::empty(), i + 1))
    } else if t[i] == '\\' {
        if i + 1 < t.len() && (t[i + 1] == '"' || t[i + 1] == '\\') {
            match parse_string_body_spec(t, i + 2) {
                Some((rest, j)) => Some((seq![t[i + 1]] + rest, j)),
                None => None,
            }
        } else {
            None
        }
    } else {
        match parse_string_body_spec(t, i + 1) {
            Some((rest, j)) => Some((seq![t[i]] + rest, j)),
            None => None,
        }
    }
}

/// Parse a maximal run of bare-token characters starting at `i`.
pub open spec fn parse_token_run_spec(t: Seq<char>, i: int) -> (Seq<char>, int)
    decreases t.len() - i,
{
    if 0 <= i < t.len() && is_token_char_spec(t[i]) {
        let (rest, j) = parse_token_run_spec(t, i + 1);
        (seq![t[i]] + rest, j)
    } else {
        (Seq::empty(), i)
    }
}

/// Parse one scalar value at `i`.
pub open spec fn parse_scalar_spec(t: Seq<char>, i: int) -> Option<(JsonScalarV, int)> {
    if 0 <= i < t.len() && t[i] == '"' {
        match parse_string_body_spec(t, i + 1) {
            Some((s, j)) => Some((JsonScalarV::TextV(s), j)),
            None => None,
        }
    } else {
        let (tok, j) = parse_token_run_spec(t, i);
        if tok.len() == 0 {
            None
        } else if tok == "true"@ {
            Some((JsonScalarV::FlagV(true), j))
        } else if tok == "false"@ {
            Some((JsonScalarV::FlagV(false), j))
        } else {
            Some((JsonScalarV::TokenV(tok), j))
        }
    }
}

/// Parse `"key" : value` and everything after it up to and including the
/// closing brace.
pub open spec fn parse_fields_spec(t: Seq<char>, i: int) -> Option<(Seq<JsonFieldV>, int)>
    decreases t.len() - i,
{
    let i0 = skip_ws_spec(t, i);
    if !(0 <= i0 < t.len() && t[i0] == '"') {
        None
    } else {
        match parse_string_body_spec(t, i0 + 1) {
            None => None,
            Some((key, i1)) => {
                let i2 = skip_ws_spec(t, i1);
                if !(i2 < t.len() && t[i2] == ':') {
                    None
                } else {
                    match parse_scalar_spec(t, skip_ws_spec(t, i2 + 1)) {
                        None => None,
                        Some((v, i3)) => {
                            let i4 = skip_ws_spec(t, i3);
                            if i4 < t.len() && t[i4] == ',' {
                                if i4 + 1 > i {
                                    match parse_fields_spec(t, i4 + 1) {
                                        None => None,
                                        Some((rest, j)) => Some(
                                            (seq![JsonFieldV { key, value: v }] + rest, j),
                                        ),
                                    }
                                } else {
                                    None
                                }
                            } else if i4 < t.len() && t[i4] == '}' {
                                Some((seq![JsonFieldV { key, value: v }], i4 + 1))
                            } else {
                                None
                            }
                        },
                    }
                }
            },
        }
    }
}

/// Parse a whole settings document: one object, nothing but whitespace
/// around it.
pub open spec fn parse_doc_spec(t: Seq<char>) -> Option<Seq<JsonFieldV>> {
    let i0 = skip_ws_spec(t, 0);
    if !(i0 < t.len() && t[i0] == '{') {
        None
    } else {
        let i1 = skip_ws_spec(t, i0 + 1);
        if i1 < t.len() && t[i1] == '}' {
            if skip_ws_spec(t, i1 + 1) == t.len() {
                Some(Seq::empty())
            } else {
                None
            }
        } else {
            match parse_fields_spec(t, i0 + 1) {
                None => None,
                Some((fs, j)) => if skip_ws_spec(t, j) == t.len() {
                    Some(fs)
                } else {
                    None
                },
            }
        }
    }
}

// --- The executable parser ---

fn skip_ws(t: &Vec<char>, i: usize) -> (r: usize)
    requires
        i <= t@.len(),
    ensures
        r == skip_ws_spec(t@, i as int),
        i <= r <= t@.len(),
    decreases t@.len() - i,
{
    if i < t.len() {
        let c = t[i];
        if c == ' ' || c == '\t' || c == '\n' || c == '\r' {
            return skip_ws(t, i + 1);
        }
    }
    i
}

fn parse_string_body(t: &Vec<char>, i: usize) -> (r: Option<(Vec<char>, usize)>)
    requires
        i <= t@.len(),
    ensures
        match r {
            Some(p) => parse_string_body_spec(t@, i as int) == Some((p.0@, p.1 as int)) && p.1
                <= t@.len(),
            None => parse_string_body_spec(t@, i as int) is None,
        },
    decreases t@.len() - i,
{
    if i >= t.len() {
        return None;
    }
    let c = t[i];
    if c == '"' {
        return Some((Vec::new(), i + 1));
    }
    if c == '\\' {
        if i + 1 < t.len() {
            let e = t[i + 1];
            if e == '"' || e == '\\' {
                match parse_string_body(t, i + 2) {
                    Some((rest, j)) => {
                        let mut v = rest;
                        let ghost pre = v@;
                        v.insert(0, e);
                        proof {
                            assert(v@ =~= seq![t@[i + 1]] + pre);
                        }
                        return Some((v, j));
                    },
                    None => {
                        return None;
                    },
                }
            }
        }
        return None;
    }
    match parse_string_body(t, i + 1) {
        Some((rest, j)) => {
            let mut v = rest;
            let ghost pre = v@;
            v.insert(0, c);
            proof {
                assert(v@ =~= seq![t@[i as int]] + pre);
            }
            Some((v, j))
        },
        None => None,
    }
}

fn is_token_char(c: char) -> (r: bool)
    ensures
        r == is_token_char_spec(c),
{
    ('0' <= c && c <= '9') || ('a' <= c && c <= 'z') || ('A' <= c && c <= 'Z') || c == '-' || c
        == '+' || c == '.'
}

fn parse_token_run(t: &Vec<char>, i: usize) -> (r: (Vec<char>, usize))
    requires
        i <= t@.len(),
    ensures
        parse_token_run_spec(t@, i as int) == (r.0@, r.1 as int),
        i <= r.1 <= t@.len(),
    decreases t@.len() - i,
{
    if i < t.len() && is_token_char(t[i]) {
        let c = t[i];
        let (rest, j) = parse_token_run(t, i + 1);
        let mut v = rest;
        let ghost pre = v@;
        v.insert(0, c);
        proof {
            assert(v@ =~= seq![t@[i as int]] + pre);
        }
        (v, j)
    } else {
        (Vec::new(), i)
    }
}

fn parse_scalar(t: &Vec<char>, i: usize) -> (r: Option<(JsonScalar, usize)>)
    requires
        i <= t@.len(),
    ensures
        match r {
            Some(p) => parse_scalar_spec(t@, i as int) == Some((scalar_view(p.0), p.1 as int))
                && p.1 <= t@.len(),
            None => parse_scalar_spec(t@, i as int) is None,
        },
{
    if i < t.len() {
        let c = t[i];
        if c == '"' {
            return match parse_string_body(t, i + 1) {
                Some((s, j)) => Some((JsonScalar::Text(chars_to_string(&s)), j)),
                None => None,
            };
        }
    }
    let (tok, j) = parse_token_run(t, i);
    if tok.len() == 0 {
        None
    } else if crate::text::chars_eq_lit(&tok, "true") {
        Some((JsonScalar::Flag(true), j))
    } else if crate::text::chars_eq_lit(&tok, "false") {
        Some((JsonScalar::Flag(false), j))
    } else {
        Some((JsonScalar::Token(chars_to_string(&tok)), j))
    }
}

fn parse_fields(t: &Vec<char>, i: usize) -> (r: Option<(Vec<JsonField>, usize)>)
    requires
        i <= t@.len(),
    ensures
        match r {
            Some(p) => parse_fields_spec(t@, i as int) == Some((fields_view(p.0@), p.1 as int))
                && p.1 <= t@.len(),
            None => parse_fields_spec(t@, i as int) is None,
        },
    decreases t@.len() - i,
{
    let i0 = skip_ws(t, i);
    if !(i0 < t.len()) {
        return None;
    }
    if t[i0] != '"' {
        return None;
    }
    let (key, i1) = match parse_string_body(t, i0 + 1) {
        Some(p) => p,
        None => {
            return None;
        },
    };
    let i2 = skip_ws(t, i1);
    if !(i2 < t.len()) {
        return None;
    }
    if t[i2] != ':' {
        return None;
    }
    let i2b = skip_ws(t, i2 + 1);
    let (v, i3) = match parse_scalar(t, i2b) {
        Some(p) => p,
        None => {
            return None;
        },
    };
    let i4 = skip_ws(t, i3);
    let field = JsonField { key: chars_to_string(&key), value: v };
    if i4 < t.len() {
        let c4 = t[i4];
        if c4 == ',' {
            if i4 + 1 > i {
                match parse_fields(t, i4 + 1) {
                    Some((rest, j)) => {
                        let mut fs = rest;
                        let ghost pre = fs@;
                        fs.insert(0, field);
                        proof {
                            assert(fields_view(fs@) =~= seq![
                                JsonFieldV { key: key@, value: scalar_view(v) },
                            ] + fields_view(pre));
                        }
                        return Some((fs, j));
                    },
                    None => {
                        return None;
                    },
                }
            }
            return None;
        }
        if c4 == '}' {
            let mut fs: Vec<JsonField> = Vec::new();
            fs.push(field);
            proof {
                assert(fields_view(fs@) =~= seq![JsonFieldV { key: key@, value: scalar_view(v) }]);
            }
            return Some((fs, i4 + 1));
        }
        return None;
    }
    None
}

/// Parse a settings document. Returns the field list in file order, or
/// nothing when the text is not a flat object of scalar values.
pub fn parse_settings_doc(text: &str) -> (r: Option<Vec<JsonField>>)
    ensures
        match r {
            Some(fs) => parse_doc_spec(text@) == Some(fields_view(fs@)),
            None => parse_doc_spec(text@) is None,
        },
{
    let t = chars_of(text);
    let i0 = skip_ws(&t, 0);
    if !(i0 < t.len()) {
        return None;
    }
    if t[i0] != '{' {
        return None;
    }
    let i1 = skip_ws(&t, i0 + 1);
    if i1 < t.len() && t[i1] == '}' {
        if skip_ws(&t, i1 + 1) == t.len() {
            proof {
                assert(fields_view(Seq::<JsonField>::empty()) =~= Seq::<JsonFieldV>::empty());
            }
            return Some(Vec::new());
        }
        return None;
    }
    match parse_fields(&t, i0 + 1) {
        Some((fs, j)) => {
            if skip_ws(&t, j) == t.len() {
                Some(fs)
            } else {
                None
            }
        },
        None => None,
    }
}

// --- Emission ---

/// A string-body character, escaped where JSON requires it.
pub open spec fn escape_char_spec(c: char) -> Seq<char> {
    if c == '"' || c == '\\' {
        seq!['\\', c]
    } else {
        seq![c]
    }
}

/// A whole string body, escaped.
pub open spec fn escape_spec(s: Seq<char>) -> Seq<char>
    decreases s.len(),
{
    if s.len() == 0 {
        Seq::empty()
    } else {
        escape_spec(s.drop_last()) + escape_char_spec(s.last())
    }
}

/// A quoted, escaped string.
pub open spec fn quote_spec(s: Seq<char>) -> Seq<char> {
    seq!['"'] + escape_spec(s) + seq!['"']
}

/// The text of one scalar value.
pub open spec fn emit_scalar_spec(v: JsonScalarV) -> Seq<char> {
    match v {
        JsonScalarV::TextV(s) => quote_spec(s),
        JsonScalarV::FlagV(b) => if b {
            "true"@
        } else {
            "false"@
        },
        JsonScalarV::TokenV(tok) => tok,
    }
}

/// The text of one field.
pub open spec fn emit_field_spec(f: JsonFieldV) -> Seq<char> {
    quote_spec(f.key) + seq![':'] + emit_scalar_spec(f.value)
}

/// The comma-joined fields of the object.
pub open spec fn emit_fields_spec(fs: Seq<JsonFieldV>) -> Seq<char>
    decreases fs.len(),
{
    if fs.len() == 0 {
        Seq::empty()
    } else if fs.len() == 1 {
        emit_field_spec(fs[0])
    } else {
        emit_fields_spec(fs.drop_last()) + seq![','] + emit_field_spec(fs.last())
    }
}

/// The whole document.
pub open spec fn emit_doc_spec(fs: Seq<JsonFieldV>) -> Seq<char> {
    seq!['{'] + emit_fields_spec(fs) + seq!['}']
}

fn emit_string_into(out: &mut String, s: &str)
    ensures
        final(out)@ == old(out)@ + quote_spec(s@),
{
    out.push('"');
    let cs = chars_of(s);
    let mut i: usize = 0;
    while i < cs.len()
        invariant
            0 <= i <= cs@.len(),
            cs@ == s@,
            out@ == old(out)@ + seq!['"'] + escape_spec(s@.take(i as int)),
        decreases cs@.len() - i,
    {
        let c = cs[i];
        if c == '"' || c == '\\' {
            out.push('\\');
        }
        out.push(c);
        proof {
            assert(s@.take(i + 1).drop_last() =~= s@.take(i as int));
            assert(s@.take(i + 1).last() == s@[i as int]);
            assert(escape_spec(s@.take(i + 1)) =~= escape_spec(s@.take(i as int))
                + escape_char_spec(s@[i as int]));
        }
        i += 1;
    }
    out.push('"');
    proof {
        assert(s@.take(s@.len() as int) =~= s@);
        assert(out@ =~= old(out)@ + quote_spec(s@));
    }
}

/// Render a field list back to document text.
pub fn emit_settings_doc(fields: &Vec<JsonField>) -> (r: String)
    ensures
        r@ == emit_doc_spec(fields_view(fields@)),
{
    let mut out = String::new();
    out.push('{');
    let mut i: usize = 0;
    while i < fields.len()
        invariant
            0 <= i <= fields@.len(),
            out@ == seq!['{'] + emit_fields_spec(fields_view(fields@).take(i as int)),
        decreases fields@.len() - i,
    {
        if i > 0 {
            out.push(',');
        }
        let f = &fields[i];
        emit_string_into(&mut out, f.key.as_str());
        out.push(':');
        match &f.value {
            JsonScalar::Text(s) => {
                emit_string_into(&mut out, s.as_str());
            },
            JsonScalar::Flag(b) => {
                if *b {
                    out.append("true");
                } else {
                    out.append("false");
                }
            },
            JsonScalar::Token(tok) => {
                out.append(tok.as_str());
            },
        }
        proof {
            let views = fields_view(fields@);
            assert(views.take(i + 1).drop_last() =~= views.take(i as int));
            assert(views.take(i + 1).last() == views[i as int]);
            if i > 0 {
                assert(out@ =~= seq!['{'] + emit_fields_spec(views.take(i + 1)));
            } else {
                assert(views.take(1) =~= seq![views[0]]);
                assert(out@ =~= seq!['{'] + emit_fields_spec(views.take(1)));
            }
        }
        i += 1;
    }
    out.push('}');
    proof {
        assert(fields_view(fields@).take(fields@.len() as int) =~= fields_view(fields@));
        assert(out@ =~= emit_doc_spec(fields_view(fields@)));
    }
    out
}

// --- Settings as a field list ---

/// Spec-level view of a settings record.
pub struct SettingsV {
    pub language: Language,
    pub whisper_model: WhisperModel,
    pub hotkey_mode: HotkeyMode,
    pub show_overlay: bool,
    pub auto_paste: bool,
    pub auto_select_model: bool,
    pub hotkey: Seq<char>,
}

pub open spec fn settings_view(s: Settings) -> SettingsV {
    SettingsV {
        language: s.language,
        whisper_model: s.whisper_model,
        hotkey_mode: s.hotkey_mode,
        show_overlay: s.show_overlay,
        auto_paste: s.auto_paste,
        auto_select_model: s.auto_select_model,
        hotkey: s.hotkey@,
    }
}

pub open spec fn default_settings_spec() -> SettingsV {
    SettingsV {
        language: Language::English,
        whisper_model: WhisperModel::Base,
        hotkey_mode: HotkeyMode::PushToTalk,
        show_overlay: true,
        auto_paste: true,
        auto_select_model: true,
        hotkey: default_hotkey_spec(),
    }
}

/// The fields a settings record is stored as, in declaration order.
pub open spec fn encode_settings_spec(s: SettingsV) -> Seq<JsonFieldV> {
    seq![
        JsonFieldV { key: "language"@, value: JsonScalarV::TextV(language_code_spec(s.language)) },
        JsonFieldV {
            key: "whisper_model"@,
            value: JsonScalarV::TextV(model_id_spec(s.whisper_model)),
        },
        JsonFieldV {
            key: "hotkey_mode"@,
            value: JsonScalarV::TextV(hotkey_mode_code_spec(s.hotkey_mode)),
        },
        JsonFieldV { key: "show_overlay"@, value: JsonScalarV::FlagV(s.show_overlay) },
        JsonFieldV { key: "auto_paste"@, value: JsonScalarV::FlagV(s.auto_paste) },
        JsonFieldV { key: "auto_select_model"@, value: JsonScalarV::FlagV(s.auto_select_model) },
        JsonFieldV { key: "hotkey"@, value: JsonScalarV::TextV(s.hotkey) },
    ]
}

/// Encode a settings record as its field list.
pub fn encode_settings(s: &Settings) -> (r: Vec<JsonField>)
    ensures
        fields_view(r@) == encode_settings_spec(settings_view(*s)),
{
    let mut out: Vec<JsonField> = Vec::new();
    out.push(
        JsonField {
            key: String::from_str("language"),
            value: JsonScalar::Text(String::from_str(language_code(s.language))),
        },
    );
    out.push(
        JsonField {
            key: String::from_str("whisper_model"),
            value: JsonScalar::Text(String::from_str(model_id_string(s.whisper_model))),
        },
    );
    out.push(
        JsonField {
            key: String::from_str("hotkey_mode"),
            value: JsonScalar::Text(String::from_str(hotkey_mode_code(s.hotkey_mode))),
        },
    );
    out.push(
        JsonField { key: String::from_str("show_overlay"), value: JsonScalar::Flag(s.show_overlay) },
    );
    out.push(
        JsonField { key: String::from_str("auto_paste"), value: JsonScalar::Flag(s.auto_paste) },
    );
    out.push(
        JsonField {
            key: String::from_str("auto_select_model"),
            value: JsonScalar::Flag(s.auto_select_model),
        },
    );
    out.push(
        JsonField { key: String::from_str("hotkey"), value: JsonScalar::Text(s.hotkey.clone()) },
    );
    proof {
        assert(fields_view(out@) =~= encode_settings_spec(settings_view(*s)));
    }
    out
}

/// Apply one stored field to a settings record under construction. Unknown
/// keys are ignored; a known key with an unusable value rejects the whole
/// document, as the original tolerant-reader rule demands.
pub open spec fn decode_apply_spec(acc: SettingsV, f: JsonFieldV) -> Option<SettingsV> {
    if f.key == "language"@ {
        match f.value {
            JsonScalarV::TextV(t) => match language_from_code_spec(t) {
                Some(l) => Some(SettingsV { language: l, ..acc }),
                None => None,
            },
            _ => None,
        }
    } else if f.key == "whisper_model"@ {
        match f.value {
            JsonScalarV::TextV(t) => match model_from_wire_spec(t) {
                Some(m) => Some(SettingsV { whisper_model: m, ..acc }),
                None => None,
            },
            _ => None,
        }
    } else if f.key == "hotkey_mode"@ {
        match f.value {
            JsonScalarV::TextV(t) => match hotkey_mode_from_wire_spec(t) {
                Some(m) => Some(SettingsV { hotkey_mode: m, ..acc }),
                None => None,
            },
            _ => None,
        }
    } else if f.key == "show_overlay"@ {
        match f.value {
            JsonScalarV::FlagV(b) => Some(SettingsV { show_overlay: b, ..acc }),
            _ => None,
        }
    } else if f.key == "auto_paste"@ {
        match f.value {
            JsonScalarV::FlagV(b) => Some(SettingsV { auto_paste: b, ..acc }),
            _ => None,
        }
    } else if f.key == "auto_select_model"@ {
        match f.value {
            JsonScalarV::FlagV(b) => Some(SettingsV { auto_select_model: b, ..acc }),
            _ => None,
        }
    } else if f.key == "hotkey"@ {
        match f.value {
            JsonScalarV::TextV(t) => Some(SettingsV { hotkey: t, ..acc }),
            _ => None,
        }
    } else {
        Some(acc)
    }
}

pub open spec fn decode_fold_spec(fs: Seq<JsonFieldV>, acc: SettingsV) -> Option<SettingsV>
    decreases fs.len(),
{
    if fs.len() == 0 {
        Some(acc)
    } else {
        match decode_apply_spec(acc, fs[0]) {
            None => None,
            Some(a2) => decode_fold_spec(fs.drop_first(), a2),
        }
    }
}

/// The settings a stored field list denotes: defaults, overridden field by
/// field; a later duplicate key wins, as a map-backed reader behaves.
pub open spec fn decode_settings_spec(fs: Seq<JsonFieldV>) -> Option<SettingsV> {
    decode_fold_spec(fs, default_settings_spec())
}

fn decode_apply(acc: Settings, f: &JsonField) -> (r: Option<Settings>)
    ensures
        match r {
            Some(s2) => decode_apply_spec(settings_view(acc), field_view(*f)) == Some(
                settings_view(s2),
            ),
            None => decode_apply_spec(settings_view(acc), field_view(*f)) is None,
        },
{
    let mut s = acc;
    if str_eq(f.key.as_str(), "language") {
        match &f.value {
            JsonScalar::Text(t) => match language_from_code(t.as_str()) {
                Some(l) => {
                    s.language = l;
                    Some(s)
                },
                None => None,
            },
            _ => None,
        }
    } else if str_eq(f.key.as_str(), "whisper_model") {
        match &f.value {
            JsonScalar::Text(t) => match model_from_code(t.as_str()) {
                Some(m) => {
                    s.whisper_model = m;
                    Some(s)
                },
                None => None,
            },
            _ => None,
        }
    } else if str_eq(f.key.as_str(), "hotkey_mode") {
        match &f.value {
            JsonScalar::Text(t) => match hotkey_mode_from_code(t.as_str()) {
                Some(m) => {
                    s.hotkey_mode = m;
                    Some(s)
                },
                None => None,
            },
            _ => None,
        }
    } else if str_eq(f.key.as_str(), "show_overlay") {
        match &f.value {
            JsonScalar::Flag(b) => {
                s.show_overlay = *b;
                Some(s)
            },
            _ => None,
        }
    } else if str_eq(f.key.as_str(), "auto_paste") {
        match &f.value {
            JsonScalar::Flag(b) => {
                s.auto_paste = *b;
                Some(s)
            },
            _ => None,
        }
    } else if str_eq(f.key.as_str(), "auto_select_model") {
        match &f.value {
            JsonScalar::Flag(b) => {
                s.auto_select_model = *b;
                Some(s)
            },
            _ => None,
        }
    } else if str_eq(f.key.as_str(), "hotkey") {
        match &f.value {
            JsonScalar::Text(t) => {
                s.hotkey = t.clone();
                Some(s)
            },
            _ => None,
        }
    } else {
        Some(s)
    }
}

/// Decode a stored field list into a settings record, starting from the
/// per-field defaults.
pub fn decode_settings(fields: &Vec<JsonField>) -> (r: Option<Settings>)
    ensures
        match r {
            Some(s) => decode_settings_spec(fields_view(fields@)) == Some(settings_view(s)),
            None => decode_settings_spec(fields_view(fields@)) is None,
        },
{
    let mut acc = Settings::default();
    proof {
        assert(settings_view(acc) == default_settings_spec());
        assert(fields_view(fields@).skip(0) =~= fields_view(fields@));
    }
    let mut i: usize = 0;
    while i < fields.len()
        invariant
            0 <= i <= fields@.len(),
            decode_fold_spec(fields_view(fields@), default_settings_spec()) == decode_fold_spec(
                fields_view(fields@).skip(i as int),
                settings_view(acc),
            ),
        decreases fields@.len() - i,
    {
        let ghost views = fields_view(fields@);
        proof {
            assert(views.skip(i as int)[0] == views[i as int]);
            assert(views.skip(i as int).drop_first() =~= views.skip(i + 1));
        }
        match decode_apply(acc, &fields[i]) {
            Some(s2) => {
                acc = s2;
            },
            None => {
                return None;
            },
        }
        i += 1;
    }
    proof {
        assert(fields_view(fields@).skip(fields@.len() as int) =~= Seq::<JsonFieldV>::empty());
    }
    Some(acc)
}

// --- Read-merge-write ---

/// Whether some field carries the key.
pub open spec fn contains_key_spec(fs: Seq<JsonFieldV>, k: Seq<char>) -> bool
    decreases fs.len(),
{
    if fs.len() == 0 {
        false
    } else {
        fs[0].key == k || contains_key_spec(fs.drop_first(), k)
    }
}

/// Every occurrence of the key, given the new value; other fields are left
/// alone.
pub open spec fn replace_key_spec(fs: Seq<JsonFieldV>, f: JsonFieldV) -> Seq<JsonFieldV> {
    Seq::new(
        fs.len(),
        |i: int|
            if fs[i].key == f.key {
                JsonFieldV { key: fs[i].key, value: f.value }
            } else {
                fs[i]
            },
    )
}

/// Store one field: overwrite every occurrence of its key in place, or
/// append it when the key is new.
pub open spec fn merge_one_spec(fs: Seq<JsonFieldV>, f: JsonFieldV) -> Seq<JsonFieldV> {
    if contains_key_spec(fs, f.key) {
        replace_key_spec(fs, f)
    } else {
        fs.push(f)
    }
}

/// Merge a batch of updates into an existing field list, left to right.
pub open spec fn merge_fields_spec(fs: Seq<JsonFieldV>, updates: Seq<JsonFieldV>) -> Seq<
    JsonFieldV,
>
    decreases updates.len(),
{
    if updates.len() == 0 {
        fs
    } else {
        merge_fields_spec(merge_one_spec(fs, updates[0]), updates.drop_first())
    }
}

fn scalar_clone(v: &JsonScalar) -> (r: JsonScalar)
    ensures
        r == *v,
{
    match v {
        JsonScalar::Text(t) => JsonScalar::Text(t.clone()),
        JsonScalar::Flag(b) => JsonScalar::Flag(*b),
        JsonScalar::Token(t) => JsonScalar::Token(t.clone()),
    }
}

fn contains_key(fs: &Vec<JsonField>, k: &str) -> (r: bool)
    ensures
        r == contains_key_spec(fields_view(fs@), k@),
{
    proof {
        assert(fields_view(fs@).skip(0) =~= fields_view(fs@));
    }
    let mut i: usize = 0;
    while i < fs.len()
        invariant
            0 <= i <= fs@.len(),
            contains_key_spec(fields_view(fs@), k@) == contains_key_spec(
                fields_view(fs@).skip(i as int),
                k@,
            ),
        decreases fs@.len() - i,
    {
        proof {
            assert(fields_view(fs@).skip(i as int)[0] == fields_view(fs@)[i as int]);
            assert(fields_view(fs@).skip(i as int).drop_first() =~= fields_view(fs@).skip(i + 1));
        }
        if str_eq(fs[i].key.as_str(), k) {
            return true;
        }
        i += 1;
    }
    proof {
        assert(fields_view(fs@).skip(fs@.len() as int) =~= Seq::<JsonFieldV>::empty());
    }
    false
}

fn merge_one(fs: Vec<JsonField>, f: JsonField) -> (r: Vec<JsonField>)
    ensures
        fields_view(r@) == merge_one_spec(fields_view(fs@), field_view(f)),
{
    let mut fs = fs;
    if !contains_key(&fs, f.key.as_str()) {
        let ghost pre = fields_view(fs@);
        fs.push(f);
        proof {
            assert(fields_view(fs@) =~= pre.push(field_view(f)));
        }
        return fs;
    }
    let ghost pre = fields_view(fs@);
    let mut out: Vec<JsonField> = Vec::new();
    let mut i: usize = 0;
    while i < fs.len()
        invariant
            0 <= i <= fs@.len(),
            pre == fields_view(fs@),
            out@.len() == i,
            forall|j: int|
                0 <= j < i ==> fields_view(out@)[j] == replace_key_spec(pre, field_view(f))[j],
        decreases fs@.len() - i,
    {
        let ghost pre_out = out@;
        let entry = &fs[i];
        let same = str_eq(entry.key.as_str(), f.key.as_str());
        if same {
            out.push(JsonField { key: entry.key.clone(), value: scalar_clone(&f.value) });
        } else {
            out.push(JsonField { key: entry.key.clone(), value: scalar_clone(&entry.value) });
        }
        proof {
            assert(pre[i as int] == field_view(fs@[i as int]));
            assert forall|j: int| 0 <= j < i + 1 implies fields_view(out@)[j] == replace_key_spec(
                pre,
                field_view(f),
            )[j] by {
                if j < i {
                    assert(out@[j] == pre_out[j]);
                    assert(fields_view(out@)[j] == fields_view(pre_out)[j]);
                } else {
                    assert(fields_view(out@)[j] == field_view(out@[j]));
                }
            }
        }
        i += 1;
    }
    proof {
        assert(fields_view(out@) =~= replace_key_spec(pre, field_view(f)));
    }
    out
}

/// Merge updated fields into the existing stored fields: every occurrence
/// of a known key is overwritten in place, unknown existing keys survive,
/// new keys append.
pub fn merge_fields(existing: Vec<JsonField>, updates: Vec<JsonField>) -> (r: Vec<JsonField>)
    ensures
        fields_view(r@) == merge_fields_spec(fields_view(existing@), fields_view(updates@)),
{
    let ghost initial_existing = fields_view(existing@);
    let ghost initial_updates = fields_view(updates@);
    let mut acc = existing;
    let mut updates = updates;
    proof {
        assert(fields_view(acc@) =~= initial_existing);
        assert(fields_view(updates@) =~= initial_updates);
    }
    while updates.len() > 0
        invariant
            merge_fields_spec(fields_view(acc@), fields_view(updates@)) == merge_fields_spec(
                initial_existing,
                initial_updates,
            ),
        decreases updates@.len(),
    {
        let ghost pre_updates = fields_view(updates@);
        let f = updates.remove(0);
        proof {
            assert(fields_view(updates@) =~= pre_updates.drop_first());
            assert(pre_updates[0] == field_view(f));
        }
        acc = merge_one(acc, f);
    }
    acc
}

// --- Load and save pipelines ---

/// What loading a settings file yields: the decoded record, or the
/// defaults when the text cannot be read.
pub open spec fn load_settings_spec(t: Seq<char>) -> SettingsV {
    match parse_doc_spec(t) {
        None => default_settings_spec(),
        Some(fs) => match decode_settings_spec(fs) {
            None => default_settings_spec(),
            Some(s) => s,
        },
    }
}

/// Load settings from file text; a missing or unreadable file yields the
/// per-field defaults.
pub fn settings_from_json(text: &str) -> (r: Settings)
    ensures
        settings_view(r) == load_settings_spec(text@),
{
    match parse_settings_doc(text) {
        Some(fields) => match decode_settings(&fields) {
            Some(s) => s,
            None => Settings::default(),
        },
        None => Settings::default(),
    }
}

/// What saving writes: the old document's fields (or none, if the old text
/// is unreadable) with the settings fields merged in.
pub open spec fn save_settings_spec(existing: Seq<char>, s: SettingsV) -> Seq<char> {
    let base = match parse_doc_spec(existing) {
        Some(fs) => fs,
        None => Seq::empty(),
    };
    emit_doc_spec(merge_fields_spec(base, encode_settings_spec(s)))
}

/// Produce the new settings-file text: read the old fields, merge the
/// record's fields over them, and render. Keys this store does not know
/// survive untouched.
pub fn render_settings_update(existing_text: &str, s: &Settings) -> (r: String)
    ensures
        r@ == save_settings_spec(existing_text@, settings_view(*s)),
{
    let base = match parse_settings_doc(existing_text) {
        Some(fields) => fields,
        None => Vec::new(),
    };
    proof {
        assert(fields_view(Seq::<JsonField>::empty()) =~= Seq::<JsonFieldV>::empty());
    }
    let updates = encode_settings(s);
    let merged = merge_fields(base, updates);
    emit_settings_doc(&merged)
}

// --- Laws ---

/// The value stored under a key, if any.
pub open spec fn lookup_spec(fs: Seq<JsonFieldV>, k: Seq<char>) -> Option<JsonScalarV>
    decreases fs.len(),
{
    if fs.len() == 0 {
        None
    } else if fs[0].key == k {
        Some(fs[0].value)
    } else {
        lookup_spec(fs.drop_first(), k)
    }
}

proof fn lemma_contains_key_iff(fs: Seq<JsonFieldV>, k: Seq<char>)
    ensures
        contains_key_spec(fs, k) <==> exists|i: int| 0 <= i < fs.len() && (#[trigger] fs[i].key)
            == k,
    decreases fs.len(),
{
    if fs.len() > 0 {
        lemma_contains_key_iff(fs.drop_first(), k);
        if fs[0].key == k {
            assert(fs[0].key == k);
        } else if contains_key_spec(fs.drop_first(), k) {
            let i = choose|i: int|
                0 <= i < fs.drop_first().len() && (#[trigger] fs.drop_first()[i].key) == k;
            assert(fs[i + 1].key == k);
        } else {
            assert forall|i: int| 0 <= i < fs.len() implies (#[trigger] fs[i].key) != k by {
                if i > 0 {
                    assert(fs.drop_first()[i - 1] == fs[i]);
                }
            }
        }
    }
}

proof fn lemma_lookup_replace_other(fs: Seq<JsonFieldV>, f: JsonFieldV, k: Seq<char>)
    requires
        f.key != k,
    ensures
        lookup_spec(replace_key_spec(fs, f), k) == lookup_spec(fs, k),
    decreases fs.len(),
{
    if fs.len() == 0 {
        assert(replace_key_spec(fs, f) =~= fs);
    } else {
        let m = replace_key_spec(fs, f);
        assert(m[0].key == fs[0].key);
        if fs[0].key == k {
            assert(fs[0].key != f.key);
            assert(m[0] == fs[0]);
        } else {
            lemma_lookup_replace_other(fs.drop_first(), f, k);
            assert(m.drop_first() =~= replace_key_spec(fs.drop_first(), f));
        }
    }
}

proof fn lemma_lookup_push_other(fs: Seq<JsonFieldV>, f: JsonFieldV, k: Seq<char>)
    requires
        f.key != k,
    ensures
        lookup_spec(fs.push(f), k) == lookup_spec(fs, k),
    decreases fs.len(),
{
    reveal_with_fuel(lookup_spec, 3);
    if fs.len() == 0 {
        assert(fs.push(f)[0] == f);
        assert(fs.push(f).drop_first() =~= Seq::<JsonFieldV>::empty());
        assert(lookup_spec(Seq::<JsonFieldV>::empty(), k) is None);
    } else {
        lemma_lookup_push_other(fs.drop_first(), f, k);
        assert(fs.push(f)[0] == fs[0]);
        assert(fs.push(f).drop_first() =~= fs.drop_first().push(f));
    }
}

proof fn lemma_merge_one_keeps_other(fs: Seq<JsonFieldV>, f: JsonFieldV, k: Seq<char>)
    requires
        f.key != k,
    ensures
        lookup_spec(merge_one_spec(fs, f), k) == lookup_spec(fs, k),
{
    if contains_key_spec(fs, f.key) {
        lemma_lookup_replace_other(fs, f, k);
    } else {
        lemma_lookup_push_other(fs, f, k);
    }
}

/// Saving never disturbs a key it does not write: any field under another
/// key reads back exactly as it was before the merge.
pub proof fn lemma_merge_keeps_unknown_keys(
    fs: Seq<JsonFieldV>,
    updates: Seq<JsonFieldV>,
    k: Seq<char>,
)
    requires
        forall|i: int| 0 <= i < updates.len() ==> (#[trigger] updates[i].key) != k,
    ensures
        lookup_spec(merge_fields_spec(fs, updates), k) == lookup_spec(fs, k),
    decreases updates.len(),
{
    if updates.len() > 0 {
        lemma_merge_one_keeps_other(fs, updates[0], k);
        assert forall|i: int|
            0 <= i < updates.drop_first().len() implies (#[trigger] updates.drop_first()[i].key)
            != k by {
            assert(updates.drop_first()[i] == updates[i + 1]);
        }
        lemma_merge_keeps_unknown_keys(merge_one_spec(fs, updates[0]), updates.drop_first(), k);
    }
}

// --- The text-level round trip: parsing what was emitted ---

/// What emission guarantees parsing can recover: bare tokens must be
/// non-empty runs of token characters other than the two keywords. Strings
/// and booleans round-trip unconditionally.
pub open spec fn scalar_wf_spec(v: JsonScalarV) -> bool {
    match v {
        JsonScalarV::TokenV(tok) => {
            &&& tok.len() > 0
            &&& (forall|i: int| 0 <= i < tok.len() ==> is_token_char_spec(#[trigger] tok[i]))
            &&& tok != "true"@
            &&& tok != "false"@
        },
        _ => true,
    }
}

pub open spec fn doc_wf_spec(fs: Seq<JsonFieldV>) -> bool {
    forall|i: int| 0 <= i < fs.len() ==> scalar_wf_spec(#[trigger] fs[i].value)
}

proof fn lemma_escape_front(s: Seq<char>)
    requires
        s.len() > 0,
    ensures
        escape_spec(s) == escape_char_spec(s[0]) + escape_spec(s.drop_first()),
    decreases s.len(),
{
    if s.len() == 1 {
        assert(s.drop_last() =~= Seq::<char>::empty());
        assert(s.drop_first() =~= Seq::<char>::empty());
        assert(escape_spec(s) =~= escape_char_spec(s[0]) + escape_spec(s.drop_first()));
    } else {
        lemma_escape_front(s.drop_last());
        assert(s.drop_last()[0] == s[0]);
        assert(s.drop_last().drop_first() =~= s.drop_first().drop_last());
        assert(s.drop_first().last() == s.last());
        assert(escape_spec(s.drop_first()) == escape_spec(s.drop_first().drop_last())
            + escape_char_spec(s.drop_first().last()));
        assert(escape_spec(s) =~= escape_char_spec(s[0]) + escape_spec(s.drop_first()));
    }
}

proof fn lemma_parse_string_body_of_escape(t: Seq<char>, i: int, s: Seq<char>)
    requires
        0 <= i,
        i + escape_spec(s).len() + 1 <= t.len(),
        t.subrange(i, i + escape_spec(s).len() + 1) == escape_spec(s) + seq!['"'],
    ensures
        parse_string_body_spec(t, i) == Some((s, i + escape_spec(s).len() + 1)),
    decreases s.len(),
{
    let e = escape_spec(s);
    if s.len() == 0 {
        assert(e =~= Seq::<char>::empty());
        assert(t[i] == (e + seq!['"'])[0]);
        assert(t[i] == '"');
    } else {
        lemma_escape_front(s);
        let e0 = escape_char_spec(s[0]);
        let erest = escape_spec(s.drop_first());
        assert(e == e0 + erest);
        if s[0] == '"' || s[0] == '\\' {
            assert(t[i] == (e + seq!['"'])[0]);
            assert(t[i] == '\\');
            assert(t[i + 1] == (e + seq!['"'])[1]);
            assert(t[i + 1] == s[0]);
            assert(t.subrange(i + 2, i + 2 + erest.len() + 1) =~= erest + seq!['"']) by {
                assert forall|k: int| 0 <= k < erest.len() + 1 implies t.subrange(
                    i + 2,
                    i + 2 + erest.len() + 1,
                )[k] == (erest + seq!['"'])[k] by {
                    assert(t[i + 2 + k] == (e + seq!['"'])[2 + k]);
                }
            }
            lemma_parse_string_body_of_escape(t, i + 2, s.drop_first());
            assert(seq![t[i + 1]] + s.drop_first() =~= s);
        } else {
            assert(t[i] == (e + seq!['"'])[0]);
            assert(t[i] == s[0]);
            assert(t[i] != '"' && t[i] != '\\');
            assert(t.subrange(i + 1, i + 1 + erest.len() + 1) =~= erest + seq!['"']) by {
                assert forall|k: int| 0 <= k < erest.len() + 1 implies t.subrange(
                    i + 1,
                    i + 1 + erest.len() + 1,
                )[k] == (erest + seq!['"'])[k] by {
                    assert(t[i + 1 + k] == (e + seq!['"'])[1 + k]);
                }
            }
            lemma_parse_string_body_of_escape(t, i + 1, s.drop_first());
            assert(seq![t[i]] + s.drop_first() =~= s);
        }
    }
}

proof fn lemma_parse_token_run_exact(t: Seq<char>, i: int, tok: Seq<char>)
    requires
        0 <= i,
        i + tok.len() <= t.len(),
        t.subrange(i, i + tok.len()) == tok,
        forall|k: int| 0 <= k < tok.len() ==> is_token_char_spec(#[trigger] tok[k]),
        i + tok.len() == t.len() || !is_token_char_spec(t[i + tok.len()]),
    ensures
        parse_token_run_spec(t, i) == (tok, i + tok.len()),
    decreases tok.len(),
{
    if tok.len() == 0 {
        assert(tok =~= Seq::<char>::empty());
    } else {
        assert(t[i] == tok[0]) by {
            assert(t.subrange(i, i + tok.len())[0] == tok[0]);
        }
        assert(t.subrange(i + 1, i + 1 + tok.drop_first().len()) =~= tok.drop_first()) by {
            assert forall|k: int| 0 <= k < tok.len() - 1 implies t.subrange(
                i + 1,
                i + 1 + tok.drop_first().len(),
            )[k] == tok.drop_first()[k] by {
                assert(t.subrange(i, i + tok.len())[k + 1] == tok[k + 1]);
            }
        }
        lemma_parse_token_run_exact(t, i + 1, tok.drop_first());
        assert(seq![t[i]] + tok.drop_first() =~= tok);
    }
}

proof fn lemma_keyword_chars()
    ensures
        "true"@.len() == 4,
        "false"@.len() == 5,
        forall|k: int| 0 <= k < 4 ==> is_token_char_spec(#[trigger] "true"@[k]),
        forall|k: int| 0 <= k < 5 ==> is_token_char_spec(#[trigger] "false"@[k]),
        "true"@ != "false"@,
{
    reveal_strlit("true");
    reveal_strlit("false");
    assert forall|k: int| 0 <= k < 4 implies is_token_char_spec(#[trigger] "true"@[k]) by {
        assert("true"@[0] == 't' && "true"@[1] == 'r' && "true"@[2] == 'u' && "true"@[3] == 'e');
    }
    assert forall|k: int| 0 <= k < 5 implies is_token_char_spec(#[trigger] "false"@[k]) by {
        assert("false"@[0] == 'f' && "false"@[1] == 'a' && "false"@[2] == 'l' && "false"@[3] == 's'
            && "false"@[4] == 'e');
    }
}

proof fn lemma_parse_scalar_of_emit(t: Seq<char>, i: int, v: JsonScalarV)
    requires
        0 <= i,
        scalar_wf_spec(v),
        i + emit_scalar_spec(v).len() <= t.len(),
        t.subrange(i, i + emit_scalar_spec(v).len()) == emit_scalar_spec(v),
        i + emit_scalar_spec(v).len() == t.len() || !is_token_char_spec(
            t[i + emit_scalar_spec(v).len()],
        ),
    ensures
        parse_scalar_spec(t, i) == Some((v, i + emit_scalar_spec(v).len())),
{
    let e = emit_scalar_spec(v);
    lemma_keyword_chars();
    match v {
        JsonScalarV::TextV(s) => {
            assert(t[i] == e[0]);
            assert(t[i] == '"');
            assert(t.subrange(i + 1, i + 1 + escape_spec(s).len() + 1) =~= escape_spec(s)
                + seq!['"']) by {
                assert forall|k: int| 0 <= k < escape_spec(s).len() + 1 implies t.subrange(
                    i + 1,
                    i + 1 + escape_spec(s).len() + 1,
                )[k] == (escape_spec(s) + seq!['"'])[k] by {
                    assert(t[i + 1 + k] == e[1 + k]);
                }
            }
            lemma_parse_string_body_of_escape(t, i + 1, s);
        },
        JsonScalarV::FlagV(b) => {
            let tok: Seq<char> = if b {
                "true"@
            } else {
                "false"@
            };
            assert(e == tok);
            lemma_parse_token_run_exact(t, i, tok);
            assert(t[i] == tok[0]);
            assert(!(t[i] == '"'));
        },
        JsonScalarV::TokenV(tok) => {
            assert(e == tok);
            lemma_parse_token_run_exact(t, i, tok);
            assert(t[i] == tok[0]);
            assert(!(t[i] == '"'));
        },
    }
}

proof fn lemma_emit_fields_front(fs: Seq<JsonFieldV>)
    requires
        fs.len() >= 2,
    ensures
        emit_fields_spec(fs) == emit_field_spec(fs[0]) + seq![','] + emit_fields_spec(
            fs.drop_first(),
        ),
    decreases fs.len(),
{
    if fs.len() == 2 {
        assert(fs.drop_last() =~= seq![fs[0]]);
        assert(fs.drop_first() =~= seq![fs[1]]);
        assert(emit_fields_spec(seq![fs[0]]) == emit_field_spec(seq![fs[0]][0]));
        assert(seq![fs[0]][0] == fs[0]);
        assert(emit_fields_spec(seq![fs[1]]) == emit_field_spec(seq![fs[1]][0]));
        assert(seq![fs[1]][0] == fs[1]);
        assert(fs.last() == fs[1]);
        assert(emit_fields_spec(fs) =~= emit_field_spec(fs[0]) + seq![','] + emit_fields_spec(
            fs.drop_first(),
        ));
    } else {
        lemma_emit_fields_front(fs.drop_last());
        assert(fs.drop_last()[0] == fs[0]);
        assert(fs.drop_last().drop_first() =~= fs.drop_first().drop_last());
        assert(fs.drop_first().last() == fs.last());
        assert(fs.drop_first().len() >= 2);
        assert(emit_fields_spec(fs.drop_first()) == emit_fields_spec(fs.drop_first().drop_last())
            + seq![','] + emit_field_spec(fs.drop_first().last()));
        assert(emit_fields_spec(fs) =~= emit_field_spec(fs[0]) + seq![','] + emit_fields_spec(
            fs.drop_first(),
        ));
    }
}

proof fn lemma_not_ws()
    ensures
        !is_ws_char_spec('"'),
        !is_ws_char_spec(':'),
        !is_ws_char_spec(','),
        !is_ws_char_spec('}'),
        !is_ws_char_spec('{'),
        forall|c: char| is_token_char_spec(c) ==> !#[trigger] is_ws_char_spec(c),
        !is_token_char_spec(','),
        !is_token_char_spec('}'),
        !is_token_char_spec(':'),
        !is_token_char_spec('"'),
{
}

proof fn lemma_parse_fields_of_emit(t: Seq<char>, i: int, fs: Seq<JsonFieldV>)
    requires
        0 <= i,
        fs.len() >= 1,
        doc_wf_spec(fs),
        i + emit_fields_spec(fs).len() + 1 <= t.len(),
        t.subrange(i, i + emit_fields_spec(fs).len() + 1) == emit_fields_spec(fs) + seq!['}'],
    ensures
        parse_fields_spec(t, i) == Some((fs, i + emit_fields_spec(fs).len() + 1)),
    decreases fs.len(),
{
    lemma_not_ws();
    let f0 = fs[0];
    let key_text = quote_spec(f0.key);
    let val_text = emit_scalar_spec(f0.value);
    let f0_text = emit_field_spec(f0);
    let body = emit_fields_spec(fs);
    let sep: Seq<char> = if fs.len() == 1 {
        seq!['}']
    } else {
        seq![',']
    };
    if fs.len() >= 2 {
        lemma_emit_fields_front(fs);
    }
    // The layout of the text from position i onward.
    assert(body + seq!['}'] =~= f0_text + sep + (if fs.len() == 1 {
        Seq::<char>::empty()
    } else {
        emit_fields_spec(fs.drop_first()) + seq!['}']
    }));
    let klen = key_text.len();
    let vlen = val_text.len();
    assert(f0_text =~= key_text + seq![':'] + val_text);
    // Walk the text: opening quote of the key.
    assert(t[i] == (body + seq!['}'])[0]);
    assert(t[i] == '"');
    assert(skip_ws_spec(t, i) == i);
    assert(t.subrange(i + 1, i + 1 + escape_spec(f0.key).len() + 1) =~= escape_spec(f0.key)
        + seq!['"']) by {
        assert forall|k: int| 0 <= k < escape_spec(f0.key).len() + 1 implies t.subrange(
            i + 1,
            i + 1 + escape_spec(f0.key).len() + 1,
        )[k] == (escape_spec(f0.key) + seq!['"'])[k] by {
            assert(t[i + 1 + k] == (body + seq!['}'])[1 + k]);
        }
    }
    lemma_parse_string_body_of_escape(t, i + 1, f0.key);
    let i1 = i + klen;
    assert(i1 == i + 1 + escape_spec(f0.key).len() + 1);
    // The colon.
    assert(t[i1] == (body + seq!['}'])[klen as int]);
    assert(t[i1] == ':');
    assert(skip_ws_spec(t, i1) == i1);
    // The value.
    let i2 = i1 + 1;
    assert(t.subrange(i2, i2 + vlen) =~= val_text) by {
        assert forall|k: int| 0 <= k < vlen implies t.subrange(i2, i2 + vlen)[k]
            == val_text[k] by {
            assert(t[i2 + k] == (body + seq!['}'])[klen + 1 + k]);
        }
    }
    let i3 = i2 + vlen;
    assert(t[i3] == (body + seq!['}'])[f0_text.len() as int]);
    assert(t[i3] == sep[0]);
    assert(scalar_wf_spec(f0.value));
    lemma_parse_scalar_of_emit(t, i2, f0.value);
    assert(skip_ws_spec(t, i2) == i2) by {
        match f0.value {
            JsonScalarV::TextV(_) => {
                assert(t[i2] == val_text[0]);
            },
            JsonScalarV::FlagV(b) => {
                lemma_keyword_chars();
                assert(t[i2] == val_text[0]);
            },
            JsonScalarV::TokenV(tok) => {
                assert(t[i2] == val_text[0]);
                assert(is_token_char_spec(tok[0]));
            },
        }
    }
    assert(skip_ws_spec(t, i3) == i3);
    if fs.len() == 1 {
        assert(t[i3] == '}');
        assert(parse_fields_spec(t, i) == Some((seq![JsonFieldV { key: f0.key, value: f0.value }], i3 + 1)));
        assert(seq![JsonFieldV { key: f0.key, value: f0.value }] =~= fs);
        assert(i3 + 1 == i + body.len() + 1);
    } else {
        assert(t[i3] == ',');
        let rest = fs.drop_first();
        let rest_body = emit_fields_spec(rest);
        assert(t.subrange(i3 + 1, i3 + 1 + rest_body.len() + 1) =~= rest_body + seq!['}']) by {
            assert forall|k: int| 0 <= k < rest_body.len() + 1 implies t.subrange(
                i3 + 1,
                i3 + 1 + rest_body.len() + 1,
            )[k] == (rest_body + seq!['}'])[k] by {
                assert(t[i3 + 1 + k] == (body + seq!['}'])[f0_text.len() + 1 + k]);
            }
        }
        assert forall|k: int| 0 <= k < rest.len() implies scalar_wf_spec(
            #[trigger] rest[k].value,
        ) by {
            assert(rest[k] == fs[k + 1]);
        }
        lemma_parse_fields_of_emit(t, i3 + 1, rest);
        assert(seq![JsonFieldV { key: f0.key, value: f0.value }] + rest =~= fs);
        assert(i3 + 1 + rest_body.len() + 1 == i + body.len() + 1);
    }
}

/// Parsing what was emitted recovers the field list exactly, for any list
/// whose bare tokens are well-formed.
pub proof fn lemma_parse_of_emit_doc(fs: Seq<JsonFieldV>)
    requires
        doc_wf_spec(fs),
    ensures
        parse_doc_spec(emit_doc_spec(fs)) == Some(fs),
{
    lemma_not_ws();
    let t = emit_doc_spec(fs);
    let body = emit_fields_spec(fs);
    assert(t =~= seq!['{'] + body + seq!['}']);
    assert(t[0] == '{');
    assert(skip_ws_spec(t, 0) == 0);
    if fs.len() == 0 {
        assert(body =~= Seq::<char>::empty());
        assert(t[1] == '}');
        assert(skip_ws_spec(t, 1) == 1);
        assert(skip_ws_spec(t, 2) == 2);
        assert(t.len() == 2);
    } else {
        assert(body.len() >= 1) by {
            if fs.len() == 1 {
                assert(emit_fields_spec(fs) == emit_field_spec(fs[0]));
                assert(emit_field_spec(fs[0]).len() >= 1);
            } else {
                lemma_emit_fields_front(fs);
            }
        }
        assert(t[1] == body[0]);
        assert(body[0] == '"') by {
            if fs.len() == 1 {
                assert(body == emit_field_spec(fs[0]));
                assert(body[0] == quote_spec(fs[0].key)[0]);
            } else {
                lemma_emit_fields_front(fs);
                assert(body[0] == emit_field_spec(fs[0])[0]);
                assert(body[0] == quote_spec(fs[0].key)[0]);
            }
        }
        assert(skip_ws_spec(t, 1) == 1);
        assert(t.subrange(1, 1 + body.len() as int + 1) =~= body + seq!['}']) by {
            assert forall|k: int| 0 <= k < body.len() + 1 implies t.subrange(
                1,
                1 + body.len() as int + 1,
            )[k] == (body + seq!['}'])[k] by {
                assert(t[1 + k] == (seq!['{'] + body + seq!['}'])[1 + k]);
            }
        }
        lemma_parse_fields_of_emit(t, 1, fs);
        assert(skip_ws_spec(t, t.len() as int) == t.len());
        assert(t[1] != '}');
    }
}

proof fn lemma_encode_keys_distinct(s: SettingsV)
    ensures
        forall|i: int, j: int|
            0 <= i < j < encode_settings_spec(s).len() ==> (
            #[trigger] encode_settings_spec(s)[i].key) != (
            #[trigger] encode_settings_spec(s)[j].key),
        doc_wf_spec(encode_settings_spec(s)),
{
    reveal_strlit("language");
    reveal_strlit("whisper_model");
    reveal_strlit("hotkey_mode");
    reveal_strlit("show_overlay");
    reveal_strlit("auto_paste");
    reveal_strlit("auto_select_model");
    reveal_strlit("hotkey");
    assert("language"@.len() == 8);
    assert("whisper_model"@.len() == 13);
    assert("hotkey_mode"@.len() == 11);
    assert("show_overlay"@.len() == 12);
    assert("auto_paste"@.len() == 10);
    assert("auto_select_model"@.len() == 17);
    assert("hotkey"@.len() == 6);
}


// --- The general round trip: saving over any existing document ---

/// Every occurrence of the key carries this value.
pub open spec fn key_pinned_spec(fs: Seq<JsonFieldV>, k: Seq<char>, v: JsonScalarV) -> bool {
    forall|i: int| 0 <= i < fs.len() && (#[trigger] fs[i]).key == k ==> fs[i].value == v
}

proof fn lemma_merge_one_sets(fs: Seq<JsonFieldV>, f: JsonFieldV)
    ensures
        key_pinned_spec(merge_one_spec(fs, f), f.key, f.value),
        contains_key_spec(merge_one_spec(fs, f), f.key),
{
    let m = merge_one_spec(fs, f);
    lemma_contains_key_iff(fs, f.key);
    lemma_contains_key_iff(m, f.key);
    if contains_key_spec(fs, f.key) {
        let w = choose|i: int| 0 <= i < fs.len() && (#[trigger] fs[i].key) == f.key;
        assert(m[w].key == f.key);
    } else {
        assert(m[fs.len() as int] == f);
        assert forall|i: int| 0 <= i < m.len() && (#[trigger] m[i]).key == f.key implies m[i].value
            == f.value by {
            if i < fs.len() {
                assert(fs[i].key != f.key);
            }
        }
    }
}

proof fn lemma_merge_one_preserves(fs: Seq<JsonFieldV>, f: JsonFieldV, k: Seq<char>, v: JsonScalarV)
    requires
        f.key != k,
        key_pinned_spec(fs, k, v),
    ensures
        key_pinned_spec(merge_one_spec(fs, f), k, v),
        contains_key_spec(fs, k) ==> contains_key_spec(merge_one_spec(fs, f), k),
{
    let m = merge_one_spec(fs, f);
    lemma_contains_key_iff(fs, k);
    lemma_contains_key_iff(m, k);
    if contains_key_spec(fs, f.key) {
        assert forall|i: int| 0 <= i < m.len() && (#[trigger] m[i]).key == k implies m[i].value
            == v by {
            assert(fs[i].key != f.key || m[i].key == f.key);
            assert(m[i] == fs[i]);
        }
        if contains_key_spec(fs, k) {
            let w = choose|i: int| 0 <= i < fs.len() && (#[trigger] fs[i].key) == k;
            assert(m[w].key == k);
        }
    } else {
        assert forall|i: int| 0 <= i < m.len() && (#[trigger] m[i]).key == k implies m[i].value
            == v by {
            if i < fs.len() {
                assert(m[i] == fs[i]);
            } else {
                assert(m[i] == f);
            }
        }
        if contains_key_spec(fs, k) {
            let w = choose|i: int| 0 <= i < fs.len() && (#[trigger] fs[i].key) == k;
            assert(m[w].key == k);
        }
    }
}

proof fn lemma_merge_fields_preserves(
    fs: Seq<JsonFieldV>,
    updates: Seq<JsonFieldV>,
    k: Seq<char>,
    v: JsonScalarV,
)
    requires
        forall|j: int| 0 <= j < updates.len() ==> (#[trigger] updates[j]).key != k,
        key_pinned_spec(fs, k, v),
    ensures
        key_pinned_spec(merge_fields_spec(fs, updates), k, v),
        contains_key_spec(fs, k) ==> contains_key_spec(merge_fields_spec(fs, updates), k),
    decreases updates.len(),
{
    if updates.len() > 0 {
        lemma_merge_one_preserves(fs, updates[0], k, v);
        assert forall|j: int|
            0 <= j < updates.drop_first().len() implies (#[trigger] updates.drop_first()[j]).key
            != k by {
            assert(updates.drop_first()[j] == updates[j + 1]);
        }
        lemma_merge_fields_preserves(merge_one_spec(fs, updates[0]), updates.drop_first(), k, v);
    }
}

/// After merging a batch of updates with pairwise-distinct keys, every
/// occurrence of each updated key carries its new value, and each updated
/// key is present.
proof fn lemma_merge_all_pins(fs: Seq<JsonFieldV>, updates: Seq<JsonFieldV>, j: int)
    requires
        forall|a: int, b: int|
            0 <= a < b < updates.len() ==> (#[trigger] updates[a].key) != (
            #[trigger] updates[b].key),
        0 <= j < updates.len(),
    ensures
        key_pinned_spec(merge_fields_spec(fs, updates), updates[j].key, updates[j].value),
        contains_key_spec(merge_fields_spec(fs, updates), updates[j].key),
    decreases updates.len(),
{
    let fs2 = merge_one_spec(fs, updates[0]);
    let rest = updates.drop_first();
    if j == 0 {
        lemma_merge_one_sets(fs, updates[0]);
        assert forall|a: int| 0 <= a < rest.len() implies (#[trigger] rest[a]).key
            != updates[0].key by {
            assert(rest[a] == updates[a + 1]);
        }
        lemma_merge_fields_preserves(fs2, rest, updates[0].key, updates[0].value);
    } else {
        assert forall|a: int, b: int|
            0 <= a < b < rest.len() implies (#[trigger] rest[a].key) != (
        #[trigger] rest[b].key) by {
            assert(rest[a] == updates[a + 1]);
            assert(rest[b] == updates[b + 1]);
        }
        assert(rest[j - 1] == updates[j]);
        lemma_merge_all_pins(fs2, rest, j - 1);
    }
}

/// One field's value, wherever its key is a settings key, is the value the
/// record encodes to.
pub open spec fn known_field_pinned_spec(f: JsonFieldV, s: SettingsV) -> bool {
    &&& f.key == "language"@ ==> f.value == JsonScalarV::TextV(language_code_spec(s.language))
    &&& f.key == "whisper_model"@ ==> f.value == JsonScalarV::TextV(
        model_id_spec(s.whisper_model),
    )
    &&& f.key == "hotkey_mode"@ ==> f.value == JsonScalarV::TextV(
        hotkey_mode_code_spec(s.hotkey_mode),
    )
    &&& f.key == "show_overlay"@ ==> f.value == JsonScalarV::FlagV(s.show_overlay)
    &&& f.key == "auto_paste"@ ==> f.value == JsonScalarV::FlagV(s.auto_paste)
    &&& f.key == "auto_select_model"@ ==> f.value == JsonScalarV::FlagV(s.auto_select_model)
    &&& f.key == "hotkey"@ ==> f.value == JsonScalarV::TextV(s.hotkey)
}

pub open spec fn known_keys_pinned_spec(fs: Seq<JsonFieldV>, s: SettingsV) -> bool {
    forall|i: int| 0 <= i < fs.len() ==> known_field_pinned_spec(#[trigger] fs[i], s)
}

/// What decoding yields when every settings key in sight carries the
/// encoded value: each field present in the document takes the record's
/// value, each absent one keeps the accumulator's.
pub open spec fn decode_result_spec(fs: Seq<JsonFieldV>, acc: SettingsV, s: SettingsV) -> SettingsV {
    SettingsV {
        language: if contains_key_spec(fs, "language"@) {
            s.language
        } else {
            acc.language
        },
        whisper_model: if contains_key_spec(fs, "whisper_model"@) {
            s.whisper_model
        } else {
            acc.whisper_model
        },
        hotkey_mode: if contains_key_spec(fs, "hotkey_mode"@) {
            s.hotkey_mode
        } else {
            acc.hotkey_mode
        },
        show_overlay: if contains_key_spec(fs, "show_overlay"@) {
            s.show_overlay
        } else {
            acc.show_overlay
        },
        auto_paste: if contains_key_spec(fs, "auto_paste"@) {
            s.auto_paste
        } else {
            acc.auto_paste
        },
        auto_select_model: if contains_key_spec(fs, "auto_select_model"@) {
            s.auto_select_model
        } else {
            acc.auto_select_model
        },
        hotkey: if contains_key_spec(fs, "hotkey"@) {
            s.hotkey
        } else {
            acc.hotkey
        },
    }
}

proof fn lemma_decode_pinned(fs: Seq<JsonFieldV>, acc: SettingsV, s: SettingsV)
    requires
        known_keys_pinned_spec(fs, s),
    ensures
        decode_fold_spec(fs, acc) == Some(decode_result_spec(fs, acc, s)),
    decreases fs.len(),
{
    reveal_strlit("language");
    reveal_strlit("whisper_model");
    reveal_strlit("hotkey_mode");
    reveal_strlit("show_overlay");
    reveal_strlit("auto_paste");
    reveal_strlit("auto_select_model");
    reveal_strlit("hotkey");
    assert("language"@.len() == 8);
    assert("whisper_model"@.len() == 13);
    assert("hotkey_mode"@.len() == 11);
    assert("show_overlay"@.len() == 12);
    assert("auto_paste"@.len() == 10);
    assert("auto_select_model"@.len() == 17);
    assert("hotkey"@.len() == 6);
    if fs.len() == 0 {
        assert(decode_result_spec(fs, acc, s) == acc);
    } else {
        let f0 = fs[0];
        assert(known_field_pinned_spec(f0, s));
        lemma_language_code_strict_roundtrip(s.language);
        lemma_model_id_roundtrip(s.whisper_model);
        lemma_hotkey_mode_code_roundtrip(s.hotkey_mode);
        let stepped = decode_apply_spec(acc, f0);
        assert(stepped is Some);
        let acc2 = stepped->0;
        assert forall|i: int|
            0 <= i < fs.drop_first().len() implies known_field_pinned_spec(
            #[trigger] fs.drop_first()[i],
            s,
        ) by {
            assert(fs.drop_first()[i] == fs[i + 1]);
        }
        lemma_decode_pinned(fs.drop_first(), acc2, s);
        assert(decode_result_spec(fs.drop_first(), acc2, s) == decode_result_spec(fs, acc, s));
    }
}

/// A settings key in a parsed-or-merged document always holds a
/// well-formed scalar once the record's fields are merged in.
proof fn lemma_merge_keeps_wf(fs: Seq<JsonFieldV>, f: JsonFieldV)
    requires
        doc_wf_spec(fs),
        scalar_wf_spec(f.value),
    ensures
        doc_wf_spec(merge_one_spec(fs, f)),
{
    let m = merge_one_spec(fs, f);
    assert forall|i: int| 0 <= i < m.len() implies scalar_wf_spec(#[trigger] m[i].value) by {
        if contains_key_spec(fs, f.key) {
            assert(m[i].value == f.value || m[i].value == fs[i].value);
        } else {
            if i < fs.len() {
                assert(m[i] == fs[i]);
            } else {
                assert(m[i] == f);
            }
        }
    }
}

proof fn lemma_merge_fields_keeps_wf(fs: Seq<JsonFieldV>, updates: Seq<JsonFieldV>)
    requires
        doc_wf_spec(fs),
        forall|j: int| 0 <= j < updates.len() ==> scalar_wf_spec(#[trigger] updates[j].value),
    ensures
        doc_wf_spec(merge_fields_spec(fs, updates)),
    decreases updates.len(),
{
    if updates.len() > 0 {
        lemma_merge_keeps_wf(fs, updates[0]);
        assert forall|j: int|
            0 <= j < updates.drop_first().len() implies scalar_wf_spec(
            #[trigger] updates.drop_first()[j].value,
        ) by {
            assert(updates.drop_first()[j] == updates[j + 1]);
        }
        lemma_merge_fields_keeps_wf(merge_one_spec(fs, updates[0]), updates.drop_first());
    }
}

proof fn lemma_token_run_chars(t: Seq<char>, i: int)
    ensures
        forall|k: int|
            0 <= k < parse_token_run_spec(t, i).0.len() ==> is_token_char_spec(
                #[trigger] parse_token_run_spec(t, i).0[k],
            ),
    decreases t.len() - i,
{
    if 0 <= i < t.len() && is_token_char_spec(t[i]) {
        lemma_token_run_chars(t, i + 1);
        let tok = parse_token_run_spec(t, i).0;
        let rest = parse_token_run_spec(t, i + 1).0;
        assert forall|k: int| 0 <= k < tok.len() implies is_token_char_spec(
            #[trigger] tok[k],
        ) by {
            if k > 0 {
                assert(tok[k] == rest[k - 1]);
            }
        }
    }
}

proof fn lemma_parse_scalar_wf(t: Seq<char>, i: int)
    ensures
        parse_scalar_spec(t, i) matches Some(p) ==> scalar_wf_spec(p.0),
{
    lemma_token_run_chars(t, i);
}

proof fn lemma_parse_fields_wf(t: Seq<char>, i: int)
    ensures
        parse_fields_spec(t, i) matches Some(p) ==> doc_wf_spec(p.0),
    decreases t.len() - i,
{
    if parse_fields_spec(t, i) is Some {
        let i0 = skip_ws_spec(t, i);
        let (key, i1) = parse_string_body_spec(t, i0 + 1)->0;
        let i2 = skip_ws_spec(t, i1);
        let (v, i3) = parse_scalar_spec(t, skip_ws_spec(t, i2 + 1))->0;
        let i4 = skip_ws_spec(t, i3);
        lemma_parse_scalar_wf(t, skip_ws_spec(t, i2 + 1));
        if t[i4] == ',' {
            lemma_parse_fields_wf(t, i4 + 1);
            let rest_pair = parse_fields_spec(t, i4 + 1)->0;
            let rest = rest_pair.0;
            let fs_pair = parse_fields_spec(t, i)->0;
            let fs = fs_pair.0;
            assert(fs == seq![JsonFieldV { key, value: v }] + rest);
            assert forall|k: int| 0 <= k < fs.len() implies scalar_wf_spec(
                #[trigger] fs[k].value,
            ) by {
                if k > 0 {
                    assert(fs[k] == rest[k - 1]);
                }
            }
        } else {
            let fs_pair = parse_fields_spec(t, i)->0;
            let fs = fs_pair.0;
            assert(fs == seq![JsonFieldV { key, value: v }]);
            assert(fs[0].value == v);
        }
    }
}

proof fn lemma_parse_doc_wf(t: Seq<char>)
    ensures
        parse_doc_spec(t) matches Some(fs) ==> doc_wf_spec(fs),
{
    let i0 = skip_ws_spec(t, 0);
    if parse_doc_spec(t) is Some {
        let i1 = skip_ws_spec(t, i0 + 1);
        if i1 < t.len() && t[i1] == '}' {
        } else {
            lemma_parse_fields_wf(t, i0 + 1);
        }
    }
}

/// The full store round trip, over any prior file contents: saving a
/// settings record and loading the result yields that record again,
/// whatever the old document held (including duplicate settings keys,
/// which the merge overwrites in every position).
pub proof fn lemma_save_load_roundtrip(existing: Seq<char>, s: SettingsV)
    ensures
        load_settings_spec(save_settings_spec(existing, s)) == s,
{
    let base: Seq<JsonFieldV> = match parse_doc_spec(existing) {
        Some(fs) => fs,
        None => Seq::empty(),
    };
    lemma_parse_doc_wf(existing);
    assert(doc_wf_spec(base));
    let enc = encode_settings_spec(s);
    lemma_encode_keys_distinct(s);
    let merged = merge_fields_spec(base, enc);
    assert forall|j: int| 0 <= j < enc.len() implies scalar_wf_spec(
        #[trigger] enc[j].value,
    ) by {}
    lemma_merge_fields_keeps_wf(base, enc);
    lemma_merge_all_pins(base, enc, 0);
    lemma_merge_all_pins(base, enc, 1);
    lemma_merge_all_pins(base, enc, 2);
    lemma_merge_all_pins(base, enc, 3);
    lemma_merge_all_pins(base, enc, 4);
    lemma_merge_all_pins(base, enc, 5);
    lemma_merge_all_pins(base, enc, 6);
    assert(known_keys_pinned_spec(merged, s)) by {
        assert forall|i: int| 0 <= i < merged.len() implies known_field_pinned_spec(
            #[trigger] merged[i],
            s,
        ) by {
            assert(enc[0].key == "language"@ && enc[1].key == "whisper_model"@ && enc[2].key
                == "hotkey_mode"@ && enc[3].key == "show_overlay"@ && enc[4].key == "auto_paste"@
                && enc[5].key == "auto_select_model"@ && enc[6].key == "hotkey"@);
        }
    }
    lemma_parse_of_emit_doc(merged);
    lemma_decode_pinned(merged, default_settings_spec(), s);
    assert(decode_result_spec(merged, default_settings_spec(), s) == s);
}

/// Decoding the fields a settings record encodes to yields that record
/// again: the settings round-trip, field for field.
pub proof fn lemma_settings_fields_roundtrip(s: SettingsV)
    ensures
        decode_settings_spec(encode_settings_spec(s)) == Some(s),
{
    reveal_strlit("language");
    reveal_strlit("whisper_model");
    reveal_strlit("hotkey_mode");
    reveal_strlit("show_overlay");
    reveal_strlit("auto_paste");
    reveal_strlit("auto_select_model");
    reveal_strlit("hotkey");
    assert("language"@.len() == 8);
    assert("whisper_model"@.len() == 13);
    assert("hotkey_mode"@.len() == 11);
    assert("show_overlay"@.len() == 12);
    assert("auto_paste"@.len() == 10);
    assert("auto_select_model"@.len() == 17);
    assert("hotkey"@.len() == 6);
    lemma_language_code_strict_roundtrip(s.language);
    lemma_model_id_roundtrip(s.whisper_model);
    lemma_hotkey_mode_code_roundtrip(s.hotkey_mode);
    let fs = encode_settings_spec(s);
    let a0 = default_settings_spec();
    let a1 = SettingsV { language: s.language, ..a0 };
    let a2 = SettingsV { whisper_model: s.whisper_model, ..a1 };
    let a3 = SettingsV { hotkey_mode: s.hotkey_mode, ..a2 };
    let a4 = SettingsV { show_overlay: s.show_overlay, ..a3 };
    let a5 = SettingsV { auto_paste: s.auto_paste, ..a4 };
    let a6 = SettingsV { auto_select_model: s.auto_select_model, ..a5 };
    let a7 = SettingsV { hotkey: s.hotkey, ..a6 };
    let r1 = fs.drop_first();
    let r2 = r1.drop_first();
    let r3 = r2.drop_first();
    let r4 = r3.drop_first();
    let r5 = r4.drop_first();
    let r6 = r5.drop_first();
    let r7 = r6.drop_first();
    assert(decode_apply_spec(a0, fs[0]) == Some(a1));
    assert(r1[0] == fs[1] && r2[0] == fs[2] && r3[0] == fs[3] && r4[0] == fs[4] && r5[0] == fs[5]
        && r6[0] == fs[6]);
    assert(decode_apply_spec(a1, fs[1]) == Some(a2));
    assert(decode_apply_spec(a2, fs[2]) == Some(a3));
    assert(decode_apply_spec(a3, fs[3]) == Some(a4));
    assert(decode_apply_spec(a4, fs[4]) == Some(a5));
    assert(decode_apply_spec(a5, fs[5]) == Some(a6));
    assert(decode_apply_spec(a6, fs[6]) == Some(a7));
    assert(r7 =~= Seq::<JsonFieldV>::empty());
    reveal_with_fuel(decode_fold_spec, 9);
    assert(a7 == s);
}

} // verus!
