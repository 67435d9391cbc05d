//! The audio and video container formats accepted for offline
//! transcription, and the validation applied to a file's extension before
//! any decoding starts.

use vstd::prelude::*;
use vstd::string::StringExecFns;

use crate::errors::DictationError;
use crate::text::ascii_lower_spec;
use crate::text::str_eq;

verus! {

/// The accepted file extensions, lower-case.
pub open spec fn supported_extensions_spec() -> Seq<Seq<char>> {
    seq!["wav"@, "mp3"@, "m4a"@, "aac"@, "mp4"@, "mov"@, "ogg"@, "webm"@, "flac"@]
}

/// The accepted file extensions, in the order they are listed to users.
pub fn supported_extensions() -> (r: Vec<&'static str>)
    ensures
        r@.map_values(|s: &'static str| s@) == supported_extensions_spec(),
{
    let r = vec!["wav", "mp3", "m4a", "aac", "mp4", "mov", "ogg", "webm", "flac"];
    proof {
        assert(r@.map_values(|s: &'static str| s@) =~= supported_extensions_spec());
    }
    r
}

/// Whether an extension (already lower-cased) is accepted.
pub open spec fn extension_supported_spec(e: Seq<char>) -> bool {
    ||| e == "wav"@
    ||| e == "mp3"@
    ||| e == "m4a"@
    ||| e == "aac"@
    ||| e == "mp4"@
    ||| e == "mov"@
    ||| e == "ogg"@
    ||| e == "webm"@
    ||| e == "flac"@
}

/// Whether a lower-cased extension is accepted for decoding.
pub fn extension_supported(ext: &str) -> (r: bool)
    ensures
        r == extension_supported_spec(ext@),
{
    str_eq(ext, "wav") || str_eq(ext, "mp3") || str_eq(ext, "m4a") || str_eq(ext, "aac")
        || str_eq(ext, "mp4") || str_eq(ext, "mov") || str_eq(ext, "ogg") || str_eq(ext, "webm")
        || str_eq(ext, "flac")
}

/// The message given for an extension outside the accepted set.
pub open spec fn unsupported_format_message_spec(ext: Seq<char>) -> Seq<char> {
    "'."@ + ext + "' is not supported. Supported formats: wav, mp3, m4a, aac, mp4, mov, ogg, webm, flac"@
}

/// Check a file's extension, case-insensitively: accepted extensions pass,
/// everything else is the unsupported-format error naming the extension
/// and listing the accepted set.
pub fn check_extension(ext: &str) -> (r: Result<(), DictationError>)
    ensures
        r is Ok <==> extension_supported_spec(ascii_lower_spec(ext@)),
        r matches Err(e) ==> (e matches DictationError::UnsupportedFormat(m) && m@
            == unsupported_format_message_spec(ascii_lower_spec(ext@))),
{
    let lowered = crate::text::ascii_lower(ext);
    if extension_supported(lowered.as_str()) {
        Ok(())
    } else {
        let m = String::from_str("'.").concat(lowered.as_str()).concat(
            "' is not supported. Supported formats: wav, mp3, m4a, aac, mp4, mov, ogg, webm, flac",
        );
        proof {
            assert(m@ =~= unsupported_format_message_spec(ascii_lower_spec(ext@)));
        }
        Err(DictationError::UnsupportedFormat(m))
    }
}

} // verus!
