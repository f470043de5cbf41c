//! The immutable build request.

use vstd::prelude::*;

verus! {

/// Everything the pipeline needs to build and publish one image,
/// constructed once from validated configuration and never mutated.
///
/// `version` is a short content identifier such as a source revision
/// hash.  `registry_url` is the registry host plus the repository path.
/// `dockerfile_path` is the name of the build recipe inside the
/// deployment root.  `build_target` selects a stage of a multi-stage
/// recipe.  `build_args` are raw `KEY=VALUE` pairs handed to the build
/// tool verbatim, in order.
pub struct BuildRequest {
    pub service_name: String,
    pub version: String,
    pub registry_url: String,
    pub dockerfile_path: String,
    pub build_target: Option<String>,
    pub build_args: Vec<String>,
}

} // verus!
