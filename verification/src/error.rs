//! Error taxonomy of the render pipeline.
//!
//! Every failure is fatal: it terminates the pipeline, no partial output is
//! produced and nothing is retried. Each error belongs to exactly one stage
//! of the pipeline (see `pipeline`).

use vstd::prelude::*;

verus! {

/// The ways one render can fail, each surfaced at exactly one stage.
#[derive(Clone, Copy, Debug, PartialEq, Eq, Structural)]
pub enum PipelineError {
    /// The map file is missing, unreadable or malformed.
    MapLoad,
    /// The map has no physics/game layer, so the map size cannot be determined.
    RequiredLayerMissing,
    /// An embedded image asset could not be located or materialized.
    AssetResolution,
    /// A tile layer's data could not be materialized.
    LayerLoad,
    /// No compatible GPU adapter/device is available on this host.
    DeviceUnavailable,
    /// The output file could not be written.
    ImageSave,
}

/// The human-readable message of each error, naming the failed stage.
pub open spec fn spec_message(e: PipelineError) -> Seq<char> {
    match e {
        PipelineError::MapLoad => "map file missing, unreadable or malformed"@,
        PipelineError::RequiredLayerMissing => "no physics/game layer found in the map"@,
        PipelineError::AssetResolution => "an embedded image asset could not be resolved"@,
        PipelineError::LayerLoad => "a tile layer could not be loaded"@,
        PipelineError::DeviceUnavailable => "no compatible GPU adapter/device is available"@,
        PipelineError::ImageSave => "the output image file could not be written"@,
    }
}

impl PipelineError {
    /// A human-readable description naming what failed.
    pub fn message(&self) -> (m: &'static str)
        ensures
            m@ == spec_message(*self),
    {
        match self {
            PipelineError::MapLoad => "map file missing, unreadable or malformed",
            PipelineError::RequiredLayerMissing => "no physics/game layer found in the map",
            PipelineError::AssetResolution => "an embedded image asset could not be resolved",
            PipelineError::LayerLoad => "a tile layer could not be loaded",
            PipelineError::DeviceUnavailable => "no compatible GPU adapter/device is available",
            PipelineError::ImageSave => "the output image file could not be written",
        }
    }
}

} // verus!
