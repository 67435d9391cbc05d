//! The read-only records the UI queries: per-model catalogue rows and the
//! state of the loaded model. Assembling them is pure; the caller supplies
//! the on-disk facts.

use vstd::prelude::*;
use vstd::string::StringExecFns;

use crate::engine::WhisperBackend;
use crate::ids::model_id_spec;
use crate::ids::model_id_string;
use crate::settings::WhisperModel;
use crate::settings::model_description_spec;
use crate::settings::model_display_name_spec;
use crate::settings::model_size_mb_spec;

verus! {

/// Build metadata shown in the about box.
pub struct BuildInfo {
    pub version: String,
    pub git_hash: String,
    pub build_date: String,
}

/// One row of the model catalogue.
pub struct ModelInfo {
    pub id: String,
    pub display_name: String,
    pub description: String,
    pub size_mb: u32,
    pub downloaded: bool,
    pub active: bool,
}

/// The state of the engine's resident model, as the settings UI shows it.
pub struct LoadedModelInfo {
    pub effective_model: String,
    pub effective_model_id: String,
    pub loaded_model: Option<String>,
    pub is_loaded: bool,
    pub is_downloaded: bool,
}

/// Assemble one catalogue row for a model; whether its file is on disk and
/// whether it is the effective choice are the caller's facts.
pub fn build_model_info(m: WhisperModel, downloaded: bool, active: bool) -> (r: ModelInfo)
    ensures
        r.id@ == model_id_spec(m),
        r.display_name@ == model_display_name_spec(m),
        r.description@ == model_description_spec(m),
        r.size_mb == model_size_mb_spec(m),
        r.downloaded == downloaded,
        r.active == active,
{
    ModelInfo {
        id: String::from_str(model_id_string(m)),
        display_name: String::from_str(m.display_name()),
        description: String::from_str(m.description()),
        size_mb: m.size_mb(),
        downloaded,
        active,
    }
}

/// Describe the engine's resident model against the effective choice.
pub fn build_loaded_model_info(backend: &WhisperBackend, effective: WhisperModel, is_downloaded: bool) -> (r:
    LoadedModelInfo)
    ensures
        r.effective_model@ == model_display_name_spec(effective),
        r.effective_model_id@ == model_id_spec(effective),
        r.is_loaded == (backend.spec_loaded_model() == Some(effective)),
        match r.loaded_model {
            Some(n) => backend.spec_loaded_model() matches Some(m) && n@
                == model_display_name_spec(m),
            None => backend.spec_loaded_model() is None,
        },
        r.is_downloaded == is_downloaded,
{
    let loaded = backend.loaded_model();
    let is_loaded = match loaded {
        Some(m) => m == effective,
        None => false,
    };
    LoadedModelInfo {
        effective_model: String::from_str(effective.display_name()),
        effective_model_id: String::from_str(model_id_string(effective)),
        loaded_model: match loaded {
            Some(m) => Some(String::from_str(m.display_name())),
            None => None,
        },
        is_loaded,
        is_downloaded,
    }
}

} // verus!
