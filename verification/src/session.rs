//! Session identifiers and the log-rotation rule. Identifiers are minted
//! from fresh UUIDs and used only for correlating log lines.

use vstd::prelude::*;
use vstd::string::StrSliceExecFns;
use vstd::string::StringExecFns;

verus! {

/// A log file is rotated once it reaches this size, in bytes.
pub const MAX_FILE_SIZE: u64 = 5_000_000;

/// How many rotated log files are kept.
pub const MAX_FILES: u32 = 5;

/// Relies on uuid::Uuid::new_v4 and its hyphenated Display form: a random
/// identifier printed as exactly 36 characters. The value depends on
/// chance, so only its shape is stated.
#[verifier::external_body]
fn fresh_uuid_string() -> (r: String)
    ensures
        r@.len() == 36,
{
    uuid::Uuid::new_v4().to_string()
}

/// Mint the identifier for one application run: `app-` plus the first
/// eight characters of a fresh UUID.
pub fn app_session_id() -> (r: String)
    ensures
        r@.len() == 12,
        r@.take(4) == "app-"@,
{
    let u = fresh_uuid_string();
    let prefix = u.as_str().substring_char(0, 8);
    let r = String::from_str("app-").concat(prefix);
    proof {
        reveal_strlit("app-");
        assert("app-"@.len() == 4);
        assert(r@.take(4) =~= "app-"@);
    }
    r
}

/// Mint the identifier for one dictation: `dict-` plus the first eight
/// characters of a fresh UUID.
pub fn dictation_session_id() -> (r: String)
    ensures
        r@.len() == 13,
        r@.take(5) == "dict-"@,
{
    let u = fresh_uuid_string();
    let prefix = u.as_str().substring_char(0, 8);
    let r = String::from_str("dict-").concat(prefix);
    proof {
        reveal_strlit("dict-");
        assert("dict-"@.len() == 5);
        assert(r@.take(5) =~= "dict-"@);
    }
    r
}

/// Whether the active log file must be rotated before the next line.
pub fn rotation_needed(size: u64) -> (r: bool)
    ensures
        r == (size >= MAX_FILE_SIZE),
{
    size >= MAX_FILE_SIZE
}

/// The decimal digits of a number.
pub open spec fn decimal_spec(n: int) -> Seq<char>
    decreases n,
{
    if n < 0 {
        Seq::empty()
    } else if n < 10 {
        seq![(('0' as u8) + n as u8) as char]
    } else {
        decimal_spec(n / 10) + seq![(('0' as u8) + (n % 10) as u8) as char]
    }
}

/// Format a number in decimal.
pub fn u32_to_string(n: u32) -> (r: String)
    ensures
        r@ == decimal_spec(n as int),
    decreases n,
{
    if n < 10 {
        let mut s = String::new();
        s.push((('0' as u8) + n as u8) as char);
        s
    } else {
        let mut s = u32_to_string(n / 10);
        s.push((('0' as u8) + (n % 10) as u8) as char);
        s
    }
}

/// The name of the `i`-th rotated log file.
pub open spec fn rotated_log_name_spec(i: int) -> Seq<char> {
    "sagascript."@ + decimal_spec(i) + ".log"@
}

/// The file name a rotated log is moved to.
pub fn rotated_log_name(i: u32) -> (r: String)
    ensures
        r@ == rotated_log_name_spec(i as int),
{
    let r = String::from_str("sagascript.").concat(u32_to_string(i).as_str()).concat(".log");
    proof {
        assert(r@ =~= rotated_log_name_spec(i as int));
    }
    r
}

} // verus!
