//! The compositing stage: a full-screen pass in the main camera's
//! post-processing chain that blends the scene with the field-of-view mask.
//!
//! The stage decides here what a frame records; a graphics backend carries
//! the commands out. What is built once (the layouts and the pipeline) is
//! described apart from what is bound anew in every frame (the texture views),
//! since a view lives no longer than the frame it was made in.

use vstd::prelude::*;

verus! {

/// The two pictures that the stage samples.
#[derive(Clone, Copy, Debug, PartialEq, Eq)]
pub enum TextureSource {
    /// The scene as the main camera has drawn and tone-mapped it.
    SceneColor,
    /// The offscreen target of the capture pass.
    FovMask,
}

/// Where the sampler of a bind group comes from.
#[derive(Clone, Copy, Debug, PartialEq, Eq)]
pub enum SamplerSource {
    /// The sampler that was created with the pipeline.
    Pipeline,
    /// The sampler that belongs to the mask texture.
    MaskTexture,
}

/// What a binding of a layout holds.
#[derive(Clone, Copy, Debug, PartialEq, Eq)]
pub enum BindingKind {
    /// A two-dimensional, single-sampled texture of filterable floats.
    Texture,
    /// A filtering sampler.
    Sampler,
}

/// The shader stages that see a binding.
#[derive(Clone, Copy, Debug, PartialEq, Eq)]
pub struct StageVisibility {
    pub vertex: bool,
    pub fragment: bool,
}

/// One binding of a bind-group layout.
#[derive(Clone, Copy, Debug, PartialEq, Eq)]
pub struct LayoutEntry {
    pub binding: u32,
    pub kind: BindingKind,
    pub visibility: StageVisibility,
}

/// The bind group that shows one picture to the shader in one frame.
#[derive(Clone, Copy, Debug, PartialEq, Eq)]
pub struct BindGroupPlan {
    /// The group's number in the pipeline layout.
    pub slot: u32,
    /// The picture whose current view goes to binding 0.
    pub texture: TextureSource,
    /// The sampler that goes to binding 1.
    pub sampler: SamplerSource,
}

/// The pipeline, built once.
#[derive(Clone, Copy, Debug, PartialEq, Eq)]
pub struct PipelinePlan {
    /// The picture of the first bind-group layout.
    pub first_layout: TextureSource,
    /// The picture of the second bind-group layout.
    pub second_layout: TextureSource,
    /// Number of vertex buffers: the full-screen triangle needs none.
    pub vertex_buffers: u32,
    /// Number of colour targets.
    pub color_targets: u32,
    /// Whether the output is blended with what the target holds.
    pub blending: bool,
    /// Whether all four channels are written.
    pub writes_all_channels: bool,
    /// Whether a depth or stencil buffer is attached.
    pub depth_stencil: bool,
    /// Samples per pixel.
    pub samples: u32,
}

/// What the stage finds at the start of a frame.
#[derive(Clone, Copy, Debug, PartialEq, Eq)]
pub struct FrameResources {
    /// The mask texture is known to the GPU.
    pub mask_registered: bool,
    /// The view that the stage runs for has a target to post-process.
    pub view_target_present: bool,
    /// The pipeline has finished compiling.
    pub pipeline_ready: bool,
}

/// Why a frame is left as the main camera drew it.
#[derive(Clone, Copy, Debug, PartialEq, Eq)]
pub enum SkipCause {
    /// The mask texture is not known to the GPU yet.
    MaskUnregistered,
    /// The view has no target to post-process.
    NoViewTarget,
    /// The pipeline is still compiling.
    PipelineNotReady,
}

/// What the stage does in a frame.
#[derive(Clone, Copy, Debug, PartialEq, Eq)]
pub enum FramePlan {
    /// Draw nothing and leave the scene's picture untouched.
    Skip(SkipCause),
    /// Blend the scene with the mask.
    Draw,
}

/// One step of what the stage records in a frame.
#[derive(Clone, Copy, Debug, PartialEq, Eq)]
pub enum RenderCommand {
    /// Build a bind group from this frame's texture views.
    CreateBindGroup(BindGroupPlan),
    /// Begin a render pass that writes the destination of the scene's
    /// post-processing, without a depth buffer.
    BeginPass,
    /// Select the compositing pipeline.
    SetPipeline,
    /// Bind the group of a picture to a slot.
    SetBindGroup { slot: u32, texture: TextureSource },
    /// Draw the vertices `first_vertex .. end_vertex` of the instances
    /// `first_instance .. end_instance`.
    Draw { first_vertex: u32, end_vertex: u32, first_instance: u32, end_instance: u32 },
}

/// The stages of the main camera's post-processing chain that the
/// compositing stage is ordered against, and the stage itself.
#[derive(Clone, Copy, Debug, PartialEq, Eq)]
pub enum GraphStage {
    /// Tone mapping: the stage works on tone-mapped colour.
    Tonemapping,
    /// The compositing stage.
    FovRender,
    /// The end of post-processing.
    EndMainPassPostProcessing,
}

/// Binding 0 of both layouts: the texture, seen by the fragment stage only.
pub open spec fn texture_entry() -> LayoutEntry {
    LayoutEntry {
        binding: 0,
        kind: BindingKind::Texture,
        visibility: StageVisibility { vertex: false, fragment: true },
    }
}

/// Binding 1 of both layouts: the sampler, seen by the fragment stage only.
pub open spec fn sampler_entry() -> LayoutEntry {
    LayoutEntry {
        binding: 1,
        kind: BindingKind::Sampler,
        visibility: StageVisibility { vertex: false, fragment: true },
    }
}

/// The bindings of a layout. The two layouts have one shape.
pub open spec fn layout_of(texture: TextureSource) -> Seq<LayoutEntry> {
    seq![texture_entry(), sampler_entry()]
}

/// The slot of a picture's bind group: the scene at 0, the mask at 1.
pub open spec fn slot_of(texture: TextureSource) -> u32 {
    match texture {
        TextureSource::SceneColor => 0,
        TextureSource::FovMask => 1,
    }
}

/// The bind group of a picture: the scene is read through the pipeline's
/// sampler, the mask through its own.
pub open spec fn bind_group_of(texture: TextureSource) -> BindGroupPlan {
    BindGroupPlan {
        slot: slot_of(texture),
        texture,
        sampler: match texture {
            TextureSource::SceneColor => SamplerSource::Pipeline,
            TextureSource::FovMask => SamplerSource::MaskTexture,
        },
    }
}

/// The pipeline: the scene's layout, then the mask's; one full-screen
/// triangle without vertex buffers; one colour target, all channels written
/// over what was there; no depth buffer, one sample per pixel.
pub open spec fn pipeline_of() -> PipelinePlan {
    PipelinePlan {
        first_layout: TextureSource::SceneColor,
        second_layout: TextureSource::FovMask,
        vertex_buffers: 0,
        color_targets: 1,
        blending: false,
        writes_all_channels: true,
        depth_stencil: false,
        samples: 1,
    }
}

/// What the stage does in a frame: it draws only when the mask is
/// registered, the view has a target and the pipeline is ready. Of several
/// causes to skip, the first in that order is named.
pub open spec fn frame_plan_of(resources: FrameResources) -> FramePlan {
    if !resources.mask_registered {
        FramePlan::Skip(SkipCause::MaskUnregistered)
    } else if !resources.view_target_present {
        FramePlan::Skip(SkipCause::NoViewTarget)
    } else if !resources.pipeline_ready {
        FramePlan::Skip(SkipCause::PipelineNotReady)
    } else {
        FramePlan::Draw
    }
}

/// The full-screen draw: three vertices, one instance.
pub open spec fn fullscreen_draw() -> RenderCommand {
    RenderCommand::Draw { first_vertex: 0, end_vertex: 3, first_instance: 0, end_instance: 1 }
}

/// What a drawing frame records, in order.
pub open spec fn draw_commands() -> Seq<RenderCommand> {
    seq![
        RenderCommand::CreateBindGroup(bind_group_of(TextureSource::SceneColor)),
        RenderCommand::CreateBindGroup(bind_group_of(TextureSource::FovMask)),
        RenderCommand::BeginPass,
        RenderCommand::SetPipeline,
        RenderCommand::SetBindGroup { slot: 0, texture: TextureSource::SceneColor },
        RenderCommand::SetBindGroup { slot: 1, texture: TextureSource::FovMask },
        fullscreen_draw(),
    ]
}

/// What a frame records: the draw commands, or nothing at all.
pub open spec fn frame_commands_of(resources: FrameResources) -> Seq<RenderCommand> {
    if frame_plan_of(resources) == FramePlan::Draw {
        draw_commands()
    } else {
        Seq::empty()
    }
}

/// The order in which the render graph runs the stages.
pub open spec fn graph_order() -> Seq<GraphStage> {
    seq![GraphStage::Tonemapping, GraphStage::FovRender, GraphStage::EndMainPassPostProcessing]
}

/// The bindings of the layout of a picture.
pub fn layout_entries(texture: TextureSource) -> (entries: Vec<LayoutEntry>)
    ensures
        entries@ == layout_of(texture),
{
    let fragment_only = StageVisibility { vertex: false, fragment: true };
    let mut entries: Vec<LayoutEntry> = Vec::new();
    entries.push(LayoutEntry { binding: 0, kind: BindingKind::Texture, visibility: fragment_only });
    entries.push(LayoutEntry { binding: 1, kind: BindingKind::Sampler, visibility: fragment_only });
    assert(entries@ =~= layout_of(texture));
    entries
}

/// The bind group of a picture.
pub fn bind_group(texture: TextureSource) -> (group: BindGroupPlan)
    ensures
        group == bind_group_of(texture),
{
    match texture {
        TextureSource::SceneColor => BindGroupPlan {
            slot: 0,
            texture,
            sampler: SamplerSource::Pipeline,
        },
        TextureSource::FovMask => BindGroupPlan {
            slot: 1,
            texture,
            sampler: SamplerSource::MaskTexture,
        },
    }
}

/// The pipeline of the stage.
pub fn pipeline() -> (plan: PipelinePlan)
    ensures
        plan == pipeline_of(),
{
    PipelinePlan {
        first_layout: TextureSource::SceneColor,
        second_layout: TextureSource::FovMask,
        vertex_buffers: 0,
        color_targets: 1,
        blending: false,
        writes_all_channels: true,
        depth_stencil: false,
        samples: 1,
    }
}

/// Decides what the stage does in a frame.
pub fn plan_frame(resources: FrameResources) -> (plan: FramePlan)
    ensures
        plan == frame_plan_of(resources),
{
    if !resources.mask_registered {
        FramePlan::Skip(SkipCause::MaskUnregistered)
    } else if !resources.view_target_present {
        FramePlan::Skip(SkipCause::NoViewTarget)
    } else if !resources.pipeline_ready {
        FramePlan::Skip(SkipCause::PipelineNotReady)
    } else {
        FramePlan::Draw
    }
}

/// Records the commands of a frame.
pub fn record_commands(resources: FrameResources) -> (commands: Vec<RenderCommand>)
    ensures
        commands@ == frame_commands_of(resources),
{
    let mut commands: Vec<RenderCommand> = Vec::new();
    match plan_frame(resources) {
        FramePlan::Skip(_) => {},
        FramePlan::Draw => {
            commands.push(RenderCommand::CreateBindGroup(bind_group(TextureSource::SceneColor)));
            commands.push(RenderCommand::CreateBindGroup(bind_group(TextureSource::FovMask)));
            commands.push(RenderCommand::BeginPass);
            commands.push(RenderCommand::SetPipeline);
            commands.push(
                RenderCommand::SetBindGroup { slot: 0, texture: TextureSource::SceneColor },
            );
            commands.push(RenderCommand::SetBindGroup { slot: 1, texture: TextureSource::FovMask });
            commands.push(
                RenderCommand::Draw {
                    first_vertex: 0,
                    end_vertex: 3,
                    first_instance: 0,
                    end_instance: 1,
                },
            );
        },
    }
    assert(commands@ =~= frame_commands_of(resources));
    commands
}

/// The stages in the order in which the render graph runs them: the
/// compositing stage right after tone mapping and right before the end of
/// post-processing.
pub fn graph_edges() -> (stages: Vec<GraphStage>)
    ensures
        stages@ == graph_order(),
{
    let mut stages: Vec<GraphStage> = Vec::new();
    stages.push(GraphStage::Tonemapping);
    stages.push(GraphStage::FovRender);
    stages.push(GraphStage::EndMainPassPostProcessing);
    assert(stages@ =~= graph_order());
    stages
}

/// The name under which the stage is registered in the render graph.
pub fn node_name() -> (name: &'static str)
    ensures
        name@ == "fov_render"@,
{
    "fov_render"
}

/// The logical name of the shader program that does the blending.
pub fn shader_path() -> (path: &'static str)
    ensures
        path@ == "shaders/fov.wgsl"@,
{
    "shaders/fov.wgsl"
}

/// The entry point of the fragment stage in the shader program.
pub fn fragment_entry_point() -> (name: &'static str)
    ensures
        name@ == "fragment"@,
{
    "fragment"
}

/// The label of the pipeline.
pub fn pipeline_label() -> (label: &'static str)
    ensures
        label@ == "fov_pipeline"@,
{
    "fov_pipeline"
}

/// The label of the render pass.
pub fn pass_label() -> (label: &'static str)
    ensures
        label@ == "fov_pass"@,
{
    "fov_pass"
}

/// The label of the layout of a picture.
pub fn layout_label(texture: TextureSource) -> (label: &'static str)
    ensures
        texture == TextureSource::SceneColor ==> label@ == "fov_view_bind_group_layout"@,
        texture == TextureSource::FovMask ==> label@ == "fov_texture_bind_group_layout"@,
{
    match texture {
        TextureSource::SceneColor => "fov_view_bind_group_layout",
        TextureSource::FovMask => "fov_texture_bind_group_layout",
    }
}

/// The label of the bind group of a picture.
pub fn bind_group_label(texture: TextureSource) -> (label: &'static str)
    ensures
        texture == TextureSource::SceneColor ==> label@ == "post_process_bind_group"@,
        texture == TextureSource::FovMask ==> label@ == "fov_texture_bind_group"@,
{
    match texture {
        TextureSource::SceneColor => "post_process_bind_group",
        TextureSource::FovMask => "fov_texture_bind_group",
    }
}

/// A frame that lacks any of the three resources records nothing, so the
/// scene stays as the main camera drew it; a frame that has them all records
/// exactly one draw, of one full-screen triangle, after both bind groups of
/// that frame are in place.
pub proof fn lemma_frame_commands(resources: FrameResources)
    ensures
        frame_plan_of(resources) == FramePlan::Draw <==> resources.mask_registered
            && resources.view_target_present && resources.pipeline_ready,
        frame_plan_of(resources) != FramePlan::Draw <==> frame_commands_of(resources).len() == 0,
        frame_plan_of(resources) == FramePlan::Draw ==> {
            &&& frame_commands_of(resources).len() == 7
            &&& frame_commands_of(resources).last() == fullscreen_draw()
            &&& forall|k: int|
                0 <= k < 6 ==> !(#[trigger] frame_commands_of(resources)[k] is Draw)
        },
{
}

/// The two layouts have the same shape, every binding is seen by the
/// fragment stage alone, and each picture has a slot of its own.
pub proof fn lemma_layouts_match()
    ensures
        layout_of(TextureSource::SceneColor) == layout_of(TextureSource::FovMask),
        forall|texture: TextureSource, k: int|
            0 <= k < layout_of(texture).len() ==> {
                &&& (#[trigger] layout_of(texture)[k]).binding == k
                &&& layout_of(texture)[k].visibility.fragment
                &&& !layout_of(texture)[k].visibility.vertex
            },
        slot_of(TextureSource::SceneColor) != slot_of(TextureSource::FovMask),
        pipeline_of().first_layout == TextureSource::SceneColor,
        pipeline_of().second_layout == TextureSource::FovMask,
{
}

} // verus!
