//! Where the settings file and the model files live on disk. The paths are
//! assembled here; reading and writing them is the surrounding process's
//! job.

use vstd::prelude::*;
use vstd::string::StringExecFns;

use crate::settings::WhisperModel;
use crate::settings::model_ggml_filename_spec;

verus! {

/// Relies on dirs::data_dir: the platform's application-data directory, if
/// the platform reports one. The result depends on the environment, so
/// nothing is promised about it.
#[verifier::external_body]
fn platform_data_dir() -> Option<String> {
    dirs::data_dir().map(|p| p.to_string_lossy().into_owned())
}

/// The settings file's path under a given application-data directory.
pub open spec fn settings_path_spec(data_dir: Seq<char>) -> Seq<char> {
    data_dir + "/com.sagascript.app/sagascript-settings.json"@
}

/// The settings file's path under the given application-data directory.
pub fn settings_path_in(data_dir: &str) -> (r: String)
    ensures
        r@ == settings_path_spec(data_dir@),
{
    String::from_str(data_dir).concat("/com.sagascript.app/sagascript-settings.json")
}

/// The full path to the settings file, under the platform's data directory
/// (or the working directory when the platform reports none).
pub fn settings_path() -> (r: String)
    ensures
        exists|base: Seq<char>| r@ == settings_path_spec(base),
{
    let base = match platform_data_dir() {
        Some(d) => d,
        None => String::from_str("."),
    };
    let r = settings_path_in(base.as_str());
    proof {
        assert(r@ == settings_path_spec(base@));
    }
    r
}

/// The directory model files are stored in, under a given data directory.
pub open spec fn models_dir_spec(data_dir: Seq<char>) -> Seq<char> {
    data_dir + "/Sagascript/Models"@
}

/// The models directory under the given application-data directory.
pub fn models_dir_in(data_dir: &str) -> (r: String)
    ensures
        r@ == models_dir_spec(data_dir@),
{
    String::from_str(data_dir).concat("/Sagascript/Models")
}

/// A model file's path under a given data directory.
pub open spec fn model_path_spec(data_dir: Seq<char>, m: WhisperModel) -> Seq<char> {
    models_dir_spec(data_dir) + "/"@ + model_ggml_filename_spec(m)
}

/// The full path of a model's GGML file under the given data directory.
pub fn model_path_in(data_dir: &str, model: WhisperModel) -> (r: String)
    ensures
        r@ == model_path_spec(data_dir@, model),
{
    let r = models_dir_in(data_dir).concat("/").concat(model.ggml_filename());
    proof {
        assert(r@ =~= model_path_spec(data_dir@, model));
    }
    r
}

/// The temporary-file path a download streams into before the atomic
/// rename.
pub open spec fn model_tmp_path_spec(data_dir: Seq<char>, m: WhisperModel) -> Seq<char> {
    model_path_spec(data_dir, m) + ".tmp"@
}

/// The temporary path used while downloading the given model.
pub fn model_tmp_path_in(data_dir: &str, model: WhisperModel) -> (r: String)
    ensures
        r@ == model_tmp_path_spec(data_dir@, model),
{
    let r = model_path_in(data_dir, model).concat(".tmp");
    proof {
        assert(r@ =~= model_tmp_path_spec(data_dir@, model));
    }
    r
}

/// The full path of a model's GGML file under the platform's data
/// directory (or the working directory when the platform reports none).
pub fn model_path(model: WhisperModel) -> (r: String)
    ensures
        exists|base: Seq<char>| r@ == model_path_spec(base, model),
{
    let base = match platform_data_dir() {
        Some(d) => d,
        None => String::from_str("."),
    };
    let r = model_path_in(base.as_str(), model);
    proof {
        assert(r@ == model_path_spec(base@, model));
    }
    r
}

} // verus!
