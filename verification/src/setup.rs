//! Startup: which adapter and device to ask for, and the plan of everything
//! that is created once before the frame loop runs.

use crate::features::{
    all_available, check_features, is_first_missing_feature, requested_features,
    requested_features_spec, Feature,
};
use crate::frame_loop::{lemma_run_keeps_format, AcquireError, Event, FrameLoop};
use crate::material::{is_memory_of, table_words, Material, MaterialTable, MATERIAL_SIZE};
use crate::pipeline::PipelineDesc;
use crate::resources::{build_resources, material_features, ResourcePlan};
use crate::surface::{choose_format, SurfaceConfig};
use vstd::prelude::*;

verus! {

/// Which kind of adapter is preferred when several are available.
#[derive(Clone, Copy, Debug, PartialEq, Eq, Hash, Structural)]
pub enum PowerPreference {
    LowPower,
    HighPerformance,
}

/// What is asked of the adapter.
#[derive(Clone, Copy, Debug, PartialEq, Eq, Hash, Structural)]
pub struct AdapterRequest {
    pub power_preference: PowerPreference,
    /// Whether only a fallback adapter will do.
    pub force_fallback_adapter: bool,
    /// Whether the adapter must be able to present to the window's surface.
    pub compatible_with_surface: bool,
}

impl AdapterRequest {
    /// The request made at startup: any adapter that can present to the
    /// surface, preferring low power, without forcing a fallback adapter.
    pub open spec fn default_spec() -> AdapterRequest {
        AdapterRequest {
            power_preference: PowerPreference::LowPower,
            force_fallback_adapter: false,
            compatible_with_surface: true,
        }
    }

    /// Builds the request made at startup.
    pub fn for_surface() -> (request: AdapterRequest)
        ensures
            request == Self::default_spec(),
    {
        AdapterRequest {
            power_preference: PowerPreference::LowPower,
            force_fallback_adapter: false,
            compatible_with_surface: true,
        }
    }
}

/// Why setup failed. None of these is recovered from.
#[derive(Clone, Copy, Debug, PartialEq, Eq, Hash, Structural)]
pub enum SetupError {
    /// No adapter can present to the surface.
    NoAdapter,
    /// The adapter did not hand out a device.
    NoDevice,
    /// The adapter lacks a feature that the device is asked for.
    UnsupportedFeature(Feature),
    /// The surface supports no format with the adapter.
    NoSurfaceFormat,
    /// The shader module was rejected.
    InvalidShader,
}

/// How the program ended.
#[derive(Clone, Copy, Debug, PartialEq, Eq, Hash, Structural)]
pub enum Outcome {
    /// The window was closed.
    Closed,
    /// Setup failed before the frame loop started.
    SetupFailed(SetupError),
    /// A frame could not be acquired.
    FrameFailed(AcquireError),
}

impl Outcome {
    /// The exit code of the process: zero after a close request, one after
    /// any failure.
    pub open spec fn exit_code_spec(self) -> i32 {
        if self is Closed {
            0
        } else {
            1
        }
    }

    /// Computes the exit code of the process.
    pub fn exit_code(&self) -> (code: i32)
        ensures
            code == self.exit_code_spec(),
            code == 0 <==> *self == Outcome::Closed,
    {
        match self {
            Outcome::Closed => 0,
            _ => 1,
        }
    }
}

/// Everything that setup creates, as plain values.
#[derive(Debug, PartialEq, Eq)]
pub struct SetupPlan {
    /// The features to ask the device for.
    pub features: Vec<Feature>,
    /// The configuration to give the surface.
    pub config: SurfaceConfig,
    /// The material buffer and its bind group.
    pub resources: ResourcePlan,
    /// The render pipeline.
    pub pipeline: PipelineDesc,
}

impl SetupPlan {
    /// Whether this is the plan for a window of `width` by `height` pixels
    /// whose surface prefers `format`, with the materials of `table`: the
    /// device is asked for the requested features, the surface starts with
    /// the initial configuration of that format and size, the buffer holds
    /// the table and is bound whole, and the pipeline draws into a target of
    /// the surface's format through the layout of the material binding.
    pub open spec fn is_plan_for(
        self,
        format: wgpu::TextureFormat,
        width: u32,
        height: u32,
        table: Seq<Material>,
    ) -> bool {
        &&& self.features@ == requested_features_spec()
        &&& self.config == SurfaceConfig::initial_spec(format, width, height)
        &&& self.resources.exposes(table.len() as u32, self.resources.contents@)
        &&& is_memory_of(self.resources.contents@, table_words(table))
        &&& self.resources.binding.size == table.len() * MATERIAL_SIZE
        &&& self.pipeline == PipelineDesc::for_target_spec(format, self.resources.layout)
    }
}

/// Plans setup from what the adapter and the surface report: the features
/// the adapter has, the formats the surface supports with it (preferred
/// first), and the window's size in pixels.
///
/// Fails with `UnsupportedFeature` when the adapter lacks a requested
/// feature, naming the first one it lacks; otherwise with `NoSurfaceFormat`
/// when the surface supports no format; otherwise succeeds. The pipeline's
/// target format is then the format of the surface configuration.
pub fn plan_setup(
    adapter_features: &Vec<Feature>,
    formats: &Vec<wgpu::TextureFormat>,
    width: u32,
    height: u32,
    table: &MaterialTable,
) -> (result: Result<SetupPlan, SetupError>)
    ensures
        result is Ok <==> all_available(requested_features_spec(), adapter_features@)
            && formats@.len() > 0,
        match result {
            Ok(plan) => {
                &&& formats@.len() > 0
                &&& plan.is_plan_for(formats@[0], width, height, table@)
                &&& plan.pipeline.target.format == plan.config.format
            },
            Err(SetupError::UnsupportedFeature(feature)) => is_first_missing_feature(
                requested_features_spec(),
                adapter_features@,
                feature,
            ),
            Err(SetupError::NoSurfaceFormat) => all_available(
                requested_features_spec(),
                adapter_features@,
            ) && formats@.len() == 0,
            Err(_) => false,
        },
{
    let features = requested_features();
    match check_features(&features, adapter_features) {
        Err(error) => {
            return Err(SetupError::UnsupportedFeature(error.feature));
        },
        Ok(_) => {},
    }
    let format = match choose_format(formats) {
        None => {
            return Err(SetupError::NoSurfaceFormat);
        },
        Some(format) => format,
    };
    let config = SurfaceConfig::initial(format, width, height);
    proof {
        lemma_requested_features_cover_materials();
    }
    let resources = match build_resources(table, &features) {
        Err(error) => {
            // Not reached: the requested features cover the material binding.
            return Err(SetupError::UnsupportedFeature(error.feature));
        },
        Ok(resources) => resources,
    };
    let pipeline = PipelineDesc::for_surface(&config, &resources.layout);
    Ok(SetupPlan { features, config, resources, pipeline })
}

/// The features the device is asked for include those that the material
/// binding needs.
pub proof fn lemma_requested_features_cover_materials()
    ensures
        all_available(material_features(), requested_features_spec()),
{
    let requested = requested_features_spec();
    assert(requested[1] == Feature::BufferBindingArray);
    assert(requested[4] == Feature::StorageResourceBindingArray);
}

/// The pipeline that setup plans stays fit for the surface for as long as
/// the frame loop runs: its target format is the format negotiated at setup,
/// and whatever events the loop takes, that is still the format of the
/// surface configuration. So the pipeline never has to be rebuilt.
pub proof fn lemma_pipeline_matches_surface(
    plan: SetupPlan,
    format: wgpu::TextureFormat,
    width: u32,
    height: u32,
    table: Seq<Material>,
    events: Seq<Event>,
)
    requires
        plan.is_plan_for(format, width, height, table),
    ensures
        plan.pipeline.target.format == format,
        plan.config.format == format,
        FrameLoop::new_spec(plan.config).run(events).0.config.format
            == plan.pipeline.target.format,
{
    lemma_run_keeps_format(FrameLoop::new_spec(plan.config), events);
}

} // verus!
