//! What is recorded for one frame: a single render pass that clears the
//! target and draws the full-screen triangle.

use vstd::prelude::*;

verus! {

/// The bit pattern of the double-precision number 0.0.
pub const F64_ZERO: u64 = 0;

/// The bit pattern of the double-precision number 1.0.
pub const F64_ONE: u64 = 0x3FF0_0000_0000_0000;

/// An RGBA colour, each channel held as the bit pattern of a double-precision
/// number.
#[derive(Clone, Copy, Debug, PartialEq, Eq, Hash, Structural)]
pub struct ClearColor {
    pub r: u64,
    pub g: u64,
    pub b: u64,
    pub a: u64,
}

impl ClearColor {
    /// Opaque green, the colour every frame is cleared to.
    pub open spec fn green_spec() -> ClearColor {
        ClearColor { r: F64_ZERO, g: F64_ONE, b: F64_ZERO, a: F64_ONE }
    }

    /// Opaque green.
    pub fn green() -> (colour: ClearColor)
        ensures
            colour == Self::green_spec(),
    {
        ClearColor { r: F64_ZERO, g: F64_ONE, b: F64_ZERO, a: F64_ONE }
    }
}

/// One command recorded inside the render pass.
#[derive(Clone, Copy, Debug, PartialEq, Eq, Hash, Structural)]
pub enum PassCommand {
    /// Bind the render pipeline.
    SetPipeline,
    /// Bind the material bind group at the given group index.
    SetBindGroup { index: u32 },
    /// Draw `vertex_count` vertices starting at `first_vertex`, for
    /// `instance_count` instances starting at `first_instance`.
    Draw { first_vertex: u32, vertex_count: u32, first_instance: u32, instance_count: u32 },
}

/// The render pass of one frame.
#[derive(Clone, Copy, Debug, PartialEq, Eq, Hash, Structural)]
pub struct FramePlan {
    /// The colour the target is cleared to when the pass begins.
    pub clear: ClearColor,
    /// Whether the pass keeps what it rendered.
    pub store: bool,
    /// The group index at which the material bind group is bound.
    pub bind_group: u32,
    pub first_vertex: u32,
    pub vertex_count: u32,
    pub first_instance: u32,
    pub instance_count: u32,
}

impl FramePlan {
    /// The pass every frame uses: clear to green, keep the result, bind the
    /// materials at group 0 and draw three vertices once.
    pub open spec fn triangle_spec() -> FramePlan {
        FramePlan {
            clear: ClearColor::green_spec(),
            store: true,
            bind_group: 0,
            first_vertex: 0,
            vertex_count: 3,
            first_instance: 0,
            instance_count: 1,
        }
    }

    /// The commands of the pass, in the order in which they are recorded:
    /// the pipeline, then the bind group, then exactly one draw.
    pub open spec fn commands_spec(self) -> Seq<PassCommand> {
        seq![
            PassCommand::SetPipeline,
            PassCommand::SetBindGroup { index: self.bind_group },
            PassCommand::Draw {
                first_vertex: self.first_vertex,
                vertex_count: self.vertex_count,
                first_instance: self.first_instance,
                instance_count: self.instance_count,
            },
        ]
    }

    /// Builds the pass every frame uses.
    pub fn triangle() -> (plan: FramePlan)
        ensures
            plan == Self::triangle_spec(),
    {
        FramePlan {
            clear: ClearColor::green(),
            store: true,
            bind_group: 0,
            first_vertex: 0,
            vertex_count: 3,
            first_instance: 0,
            instance_count: 1,
        }
    }

    /// Lists the commands of the pass in recording order.
    pub fn commands(&self) -> (commands: Vec<PassCommand>)
        ensures
            commands@ == self.commands_spec(),
    {
        let mut commands: Vec<PassCommand> = Vec::new();
        commands.push(PassCommand::SetPipeline);
        commands.push(PassCommand::SetBindGroup { index: self.bind_group });
        commands.push(
            PassCommand::Draw {
                first_vertex: self.first_vertex,
                vertex_count: self.vertex_count,
                first_instance: self.first_instance,
                instance_count: self.instance_count,
            },
        );
        commands
    }
}

} // verus!
