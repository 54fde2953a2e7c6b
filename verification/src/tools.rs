//! Project-environment decisions.  The caller probes the working directory
//! and hands in what it found; the decisions themselves are verified.

use vstd::prelude::*;

use crate::errors::NebulaError;
use crate::errors::ErrorSpec;
use crate::types::ProjectType;

verus! {

/// Accept only a directory that holds the project configuration file.
/// `config_exists` says whether `nebula.config.toml` is present.
pub fn check_is_nebula_project(config_exists: bool) -> (r: Result<(), NebulaError>)
    ensures
        r is Ok <==> config_exists,
        r is Err ==> (r->Err_0)@ == ErrorSpec::NotNebulaProject,
{
    if !config_exists {
        return Err(NebulaError::NotNebulaProject);
    }
    Ok(())
}

/// Decide the project type from which of the three top-level directories
/// (`src`, `web`, `api`) are present.
pub fn get_project_config(src_present: bool, web_present: bool, api_present: bool) -> (r: Result<
    ProjectType,
    NebulaError,
>)
    ensures
        match r {
            Ok(t) => (t == ProjectType::Api <==> (src_present && !web_present && !api_present)) && (
            t == ProjectType::Full <==> (!src_present && web_present && api_present)) && (t
                == ProjectType::Web <==> (!src_present && web_present && !api_present)),
            Err(e) => e@ == ErrorSpec::InvalidProjectStructure,
        },
{
    match (src_present, web_present, api_present) {
        (true, false, false) => Ok(ProjectType::Api),
        (false, true, true) => Ok(ProjectType::Full),
        (false, true, false) => Ok(ProjectType::Web),
        _ => Err(NebulaError::InvalidProjectStructure),
    }
}

} // verus!
