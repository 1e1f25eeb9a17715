//! The one render pass of a frame, written down as the commands to record.

use vstd::prelude::*;

verus! {

/// Binding slot of the camera uniform.
pub const CAMERA_SLOT: u32 = 0;

/// Binding slot of the sprite's texture and sampler.
pub const SPRITE_SLOT: u32 = 1;

/// Binding slot of the main uniform block.
pub const MAIN_UNIFORM_SLOT: u32 = 2;

/// Slot of the quad's vertex buffer.
pub const QUAD_BUFFER_SLOT: u32 = 0;

/// Vertices of the quad: two triangles.
pub const QUAD_VERTICES: u32 = 6;

/// A set of resources that a pass binds.
#[derive(Clone, Copy, Debug, PartialEq, Eq, Structural)]
pub enum BindGroup {
    Camera,
    Sprite,
    MainUniforms,
}

/// One command of a render pass.
#[derive(Clone, Copy, Debug, PartialEq, Eq, Structural)]
pub enum PassCommand {
    /// Use the installed pipeline.
    SetPipeline,
    SetBindGroup { slot: u32, group: BindGroup },
    /// Use the quad's vertex buffer, all of it.
    SetVertexBuffer { slot: u32 },
    /// Draw vertices `0..vertices` of instances `0..instances`.
    Draw { vertices: u32, instances: u32 },
}

/// What a pipeline layout expects at each slot, slot 0 first.
pub open spec fn main_layout() -> Seq<BindGroup> {
    seq![BindGroup::Camera, BindGroup::Sprite, BindGroup::MainUniforms]
}

/// The commands that bind a sprite: its quad, then its texture and sampler.
pub open spec fn sprite_binding() -> Seq<PassCommand> {
    seq![
        PassCommand::SetVertexBuffer { slot: QUAD_BUFFER_SLOT },
        PassCommand::SetBindGroup { slot: SPRITE_SLOT, group: BindGroup::Sprite },
    ]
}

/// The commands of the engine's pass: the pipeline, the camera at slot 0, the
/// sprite at slot 1, the main uniform block at slot 2, and one draw of the
/// quad.
pub open spec fn main_commands() -> Seq<PassCommand> {
    seq![
        PassCommand::SetPipeline,
        PassCommand::SetBindGroup { slot: CAMERA_SLOT, group: BindGroup::Camera },
    ] + sprite_binding() + seq![
        PassCommand::SetBindGroup { slot: MAIN_UNIFORM_SLOT, group: BindGroup::MainUniforms },
        PassCommand::Draw { vertices: QUAD_VERTICES, instances: 1 },
    ]
}

/// The commands of a pass without the main uniform block: the pipeline, the
/// camera, the sprite, and one draw of the quad.
pub open spec fn plain_commands() -> Seq<PassCommand> {
    seq![
        PassCommand::SetPipeline,
        PassCommand::SetBindGroup { slot: CAMERA_SLOT, group: BindGroup::Camera },
    ] + sprite_binding() + seq![PassCommand::Draw { vertices: QUAD_VERTICES, instances: 1 }]
}

/// A colour: red, green, blue and alpha, double-precision bit patterns.
#[derive(Clone, Copy, Debug, PartialEq, Eq, Structural)]
pub struct ClearColor {
    pub r: u64,
    pub g: u64,
    pub b: u64,
    pub a: u64,
}

/// Black with no opacity at all.
pub open spec fn transparent() -> ClearColor {
    ClearColor { r: 0, g: 0, b: 0, a: 0 }
}

/// A render pass: how its one colour attachment is prepared, and what is
/// recorded into it.
#[derive(Debug, PartialEq, Eq)]
pub struct RenderPass {
    /// The colour the attachment is cleared to.
    pub clear: ClearColor,
    /// Whether a depth and stencil attachment is used.
    pub depth_stencil: bool,
    /// Samples per pixel.
    pub samples: u32,
    pub commands: Vec<PassCommand>,
}

impl RenderPass {
    /// Whether the pass clears to fully transparent black, has no depth or
    /// stencil attachment and takes one sample per pixel.
    pub open spec fn is_plain_target(self) -> bool {
        &&& self.clear == transparent()
        &&& !self.depth_stencil
        &&& self.samples == 1
    }
}

/// Appends the commands that bind a sprite.
pub fn bind_sprite(commands: &mut Vec<PassCommand>)
    ensures
        final(commands)@ == old(commands)@ + sprite_binding(),
{
    commands.push(PassCommand::SetVertexBuffer { slot: QUAD_BUFFER_SLOT });
    commands.push(PassCommand::SetBindGroup { slot: SPRITE_SLOT, group: BindGroup::Sprite });
    assert(commands@ =~= old(commands)@ + sprite_binding());
}

/// The engine's pass.
pub fn main_pass() -> (pass: RenderPass)
    ensures
        pass.is_plain_target(),
        pass.commands@ == main_commands(),
{
    let mut commands: Vec<PassCommand> = Vec::new();
    commands.push(PassCommand::SetPipeline);
    commands.push(PassCommand::SetBindGroup { slot: CAMERA_SLOT, group: BindGroup::Camera });
    bind_sprite(&mut commands);
    commands.push(
        PassCommand::SetBindGroup { slot: MAIN_UNIFORM_SLOT, group: BindGroup::MainUniforms },
    );
    commands.push(PassCommand::Draw { vertices: QUAD_VERTICES, instances: 1 });
    assert(commands@ =~= main_commands());
    RenderPass {
        clear: ClearColor { r: 0, g: 0, b: 0, a: 0 },
        depth_stencil: false,
        samples: 1,
        commands,
    }
}

/// The pass without the main uniform block.
pub fn plain_pass() -> (pass: RenderPass)
    ensures
        pass.is_plain_target(),
        pass.commands@ == plain_commands(),
{
    let mut commands: Vec<PassCommand> = Vec::new();
    commands.push(PassCommand::SetPipeline);
    commands.push(PassCommand::SetBindGroup { slot: CAMERA_SLOT, group: BindGroup::Camera });
    bind_sprite(&mut commands);
    commands.push(PassCommand::Draw { vertices: QUAD_VERTICES, instances: 1 });
    assert(commands@ =~= plain_commands());
    RenderPass {
        clear: ClearColor { r: 0, g: 0, b: 0, a: 0 },
        depth_stencil: false,
        samples: 1,
        commands,
    }
}

/// Every bind group of the engine's pass sits at the slot where the layout
/// expects it, and every slot of the layout is bound.
pub proof fn lemma_main_pass_fits_layout()
    ensures
        forall|i: int|
            0 <= i < main_commands().len() ==> (#[trigger] main_commands()[i] matches PassCommand::SetBindGroup {
                slot,
                group,
            } ==> slot < main_layout().len() && main_layout()[slot as int] == group),
        forall|s: int|
            0 <= s < main_layout().len() ==> main_commands().contains(
                PassCommand::SetBindGroup { slot: s as u32, group: #[trigger] main_layout()[s] },
            ),
{
    let c = main_commands();
    assert(c.len() == 6);
    assert(c[1] == PassCommand::SetBindGroup { slot: 0, group: BindGroup::Camera });
    assert(c[3] == PassCommand::SetBindGroup { slot: 1, group: BindGroup::Sprite });
    assert(c[4] == PassCommand::SetBindGroup { slot: 2, group: BindGroup::MainUniforms });
}

} // verus!
