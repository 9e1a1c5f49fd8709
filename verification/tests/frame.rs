use fov_core::blend::blend;
use fov_core::blend::blend_channel;
use fov_core::blend::gray;
use fov_core::blend::Rgba;
use fov_core::compositor::bind_group;
use fov_core::compositor::bind_group_label;
use fov_core::compositor::fragment_entry_point;
use fov_core::compositor::graph_edges;
use fov_core::compositor::layout_entries;
use fov_core::compositor::layout_label;
use fov_core::compositor::node_name;
use fov_core::compositor::pass_label;
use fov_core::compositor::pipeline;
use fov_core::compositor::pipeline_label;
use fov_core::compositor::plan_frame;
use fov_core::compositor::record_commands;
use fov_core::compositor::shader_path;
use fov_core::compositor::BindGroupPlan;
use fov_core::compositor::BindingKind;
use fov_core::compositor::FramePlan;
use fov_core::compositor::FrameResources;
use fov_core::compositor::GraphStage;
use fov_core::compositor::LayoutEntry;
use fov_core::compositor::PipelinePlan;
use fov_core::compositor::RenderCommand;
use fov_core::compositor::SamplerSource;
use fov_core::compositor::SkipCause;
use fov_core::compositor::StageVisibility;
use fov_core::compositor::TextureSource;
use fov_core::config::FovConfig;
use fov_core::mesh::VisibilityMesh;
use fov_core::target::CaptureCamera;
use fov_core::target::CapturePass;
use fov_core::target::OffscreenTarget;
use fov_core::target::polygon_entity;
use fov_core::target::PixelFormat;
use fov_core::target::PolygonEntity;
use fov_core::target::ResizeOutcome;
use fov_core::target::TextureDescription;
use fov_core::target::TextureUsage;
use fov_core::target::ViewportSize;
use fov_core::target::CAPTURE_CAMERA_ORDER;
use fov_core::target::CAPTURE_RENDER_LAYER;
use fov_core::target::LIT_INTENSITY;
use fov_core::target::MAIN_CAMERA_ORDER;
use fov_core::updater::MeshUpdater;
use fov_core::updater::SetupOutcome;
use fov_core::updater::SkipReason;
use fov_core::updater::UpdateError;
use fov_core::updater::UpdatePlan;

fn size(width: u32, height: u32) -> ViewportSize {
    ViewportSize { width, height }
}

fn ready() -> FrameResources {
    FrameResources { mask_registered: true, view_target_present: true, pipeline_ready: true }
}

/// What a frame shows at one pixel: the scene blended with the mask that the
/// capture pass left there.
fn composited(target: &OffscreenTarget, scene: Rgba, covered: bool) -> Rgba {
    blend(scene, gray(target.pixel_intensity(covered)))
}

#[test]
fn target_is_allocated_in_the_size_of_the_viewport() {
    let target = OffscreenTarget::initialize(size(1280, 720), 204);
    assert_eq!(target.size, size(1280, 720));
    assert_eq!(target.clear_intensity, 204);
    assert_eq!(
        target.describe(),
        TextureDescription {
            width: 1280,
            height: 720,
            depth_or_array_layers: 1,
            mip_level_count: 1,
            sample_count: 1,
            format: PixelFormat::Rgba8UnormSrgb,
            usage: TextureUsage {
                texture_binding: true,
                copy_destination: true,
                render_attachment: true,
            },
        }
    );
}

#[test]
fn resize_changes_the_size_and_nothing_else() {
    let mut target = OffscreenTarget::initialize(size(1280, 720), 204);
    let camera = target.capture_camera();
    target.on_viewport_resize(size(1920, 1080));
    assert_eq!(target, OffscreenTarget { size: size(1920, 1080), clear_intensity: 204 });
    assert_eq!(target.describe().width, 1920);
    assert_eq!(target.describe().height, 1080);
    assert_eq!(target.capture_camera(), camera);
    target.on_viewport_resize(size(0, 0));
    assert_eq!(target.size, size(0, 0));
    target.on_viewport_resize(size(u32::MAX, u32::MAX));
    assert_eq!(target.size, size(u32::MAX, u32::MAX));
}

#[test]
fn resize_to_the_current_size_is_idempotent() {
    let mut target = OffscreenTarget::initialize(size(800, 600), 204);
    let before = target;
    target.on_viewport_resize(size(800, 600));
    assert_eq!(target, before);
    assert_eq!(target.describe(), before.describe());
    target.on_viewport_resize(size(640, 480));
    let once = target;
    target.on_viewport_resize(size(640, 480));
    assert_eq!(target, once);
}

#[test]
fn capture_camera_draws_before_the_main_camera() {
    let target = OffscreenTarget::initialize(size(800, 600), 204);
    assert_eq!(
        target.capture_camera(),
        CaptureCamera { order: -1, render_layer: 1, clear_intensity: 204 }
    );
    assert_eq!(CAPTURE_CAMERA_ORDER, -1);
    assert_eq!(CAPTURE_RENDER_LAYER, 1);
    assert!(CAPTURE_CAMERA_ORDER < MAIN_CAMERA_ORDER);
}

#[test]
fn mask_pixel_is_lit_where_the_polygon_covers_it() {
    let target = OffscreenTarget::initialize(size(800, 600), 204);
    assert_eq!(target.pixel_intensity(true), 255);
    assert_eq!(target.pixel_intensity(false), 204);
    assert_eq!(LIT_INTENSITY, 255);
}

#[test]
fn capture_pass_has_a_target_while_the_scene_lasts() {
    let mut pass = CapturePass::new(204);
    assert_eq!(pass, CapturePass { clear_intensity: 204, target: None });
    let target = pass.enter_scene(size(1280, 720));
    assert_eq!(target, OffscreenTarget { size: size(1280, 720), clear_intensity: 204 });
    assert_eq!(pass.target, Some(target));
    pass.exit_scene();
    assert_eq!(pass, CapturePass { clear_intensity: 204, target: None });
}

#[test]
fn reactor_follows_the_live_viewport() {
    let mut pass = CapturePass::new(204);
    assert_eq!(pass.react_to_resize(1, size(10, 10)), ResizeOutcome::TargetMissing);
    assert_eq!(pass.target, None);
    pass.enter_scene(size(1280, 720));
    assert_eq!(pass.react_to_resize(0, size(10, 10)), ResizeOutcome::Idle);
    assert_eq!(pass.target.unwrap().size, size(1280, 720));
    assert_eq!(pass.react_to_resize(1, size(1920, 1080)), ResizeOutcome::Resized);
    assert_eq!(pass.target.unwrap().size, size(1920, 1080));
    assert_eq!(pass.react_to_resize(5, size(1920, 1080)), ResizeOutcome::Unchanged);
    assert_eq!(pass.target.unwrap().size, size(1920, 1080));
    assert_eq!(pass.react_to_resize(3, size(1920, 1)), ResizeOutcome::Resized);
    assert_eq!(pass.target.unwrap(), OffscreenTarget { size: size(1920, 1), clear_intensity: 204 });
    let mut idle = CapturePass::new(7);
    assert_eq!(idle.react_to_resize(0, size(1, 1)), ResizeOutcome::Idle);
}

#[test]
fn resize_to_the_same_size_leaves_the_frame_alone() {
    let mut pass = CapturePass::new(204);
    pass.enter_scene(size(1280, 720));
    let scene = [
        Rgba { r: 10, g: 200, b: 255, a: 255 },
        Rgba { r: 0, g: 1, b: 128, a: 17 },
        Rgba { r: 255, g: 255, b: 255, a: 0 },
    ];
    let frame_before: Vec<Rgba> = scene
        .iter()
        .flat_map(|pixel| {
            [true, false].map(|covered| composited(&pass.target.unwrap(), *pixel, covered))
        })
        .collect();
    let commands_before = record_commands(ready());
    let pass_before = pass;

    assert_eq!(pass.react_to_resize(1, size(1280, 720)), ResizeOutcome::Unchanged);

    assert_eq!(pass, pass_before);
    assert_eq!(pass.target.unwrap().describe(), pass_before.target.unwrap().describe());
    let frame_after: Vec<Rgba> = scene
        .iter()
        .flat_map(|pixel| {
            [true, false].map(|covered| composited(&pass.target.unwrap(), *pixel, covered))
        })
        .collect();
    assert_eq!(frame_after, frame_before);
    assert_eq!(record_commands(ready()), commands_before);
}

#[test]
fn mask_extremes_pass_or_darken_the_scene() {
    let config = FovConfig::standard();
    let target = OffscreenTarget::initialize(size(1280, 720), config.clear_intensity());
    let scene = Rgba { r: 200, g: 100, b: 50, a: 255 };
    assert_eq!(composited(&target, scene, true), scene);
    assert_eq!(composited(&target, scene, false), Rgba { r: 160, g: 80, b: 40, a: 255 });
    for value in 0..=255u8 {
        let pixel = Rgba { r: value, g: 255 - value, b: value / 2, a: value };
        assert_eq!(blend(pixel, gray(255)), pixel);
        let dark = blend(pixel, gray(204));
        assert!(dark.r <= pixel.r && dark.g <= pixel.g && dark.b <= pixel.b);
        assert_eq!(dark.a, pixel.a);
        assert_eq!(blend(pixel, gray(0)), Rgba { r: 0, g: 0, b: 0, a: value });
    }
}

#[test]
fn blend_channel_values() {
    assert_eq!(blend_channel(255, 255), 255);
    assert_eq!(blend_channel(255, 204), 204);
    assert_eq!(blend_channel(200, 204), 160);
    assert_eq!(blend_channel(1, 204), 1);
    assert_eq!(blend_channel(1, 127), 0);
    assert_eq!(blend_channel(1, 128), 1);
    assert_eq!(blend_channel(0, 255), 0);
    assert_eq!(blend_channel(77, 0), 0);
    assert_eq!(blend_channel(100, 128), 50);
    assert_eq!(blend_channel(3, 85), 1);
}

#[test]
fn blend_is_monotonic_and_never_brightens() {
    for scene in 0..=255u8 {
        let mut last = 0u8;
        for mask in 0..=255u8 {
            let out = blend_channel(scene, mask);
            assert!(out >= last);
            assert!(out <= scene);
            let exact = (scene as f64) * (mask as f64) / 255.0;
            assert!((out as f64 - exact).abs() <= 0.5);
            last = out;
        }
        assert_eq!(last, scene);
    }
    for mask in 0..=255u8 {
        let mut last = 0u8;
        for scene in 0..=255u8 {
            let out = blend_channel(scene, mask);
            assert!(out >= last);
            last = out;
        }
    }
}

#[test]
fn blend_scales_each_channel_by_its_own_mask_channel() {
    let scene = Rgba { r: 255, g: 255, b: 255, a: 9 };
    let mask = Rgba { r: 0, g: 128, b: 255, a: 0 };
    assert_eq!(blend(scene, mask), Rgba { r: 0, g: 128, b: 255, a: 9 });
    assert_eq!(gray(204), Rgba { r: 204, g: 204, b: 204, a: 255 });
}

#[test]
fn stage_draws_only_when_everything_is_ready() {
    for mask_registered in [false, true] {
        for view_target_present in [false, true] {
            for pipeline_ready in [false, true] {
                let resources =
                    FrameResources { mask_registered, view_target_present, pipeline_ready };
                let plan = plan_frame(resources);
                let commands = record_commands(resources);
                if mask_registered && view_target_present && pipeline_ready {
                    assert_eq!(plan, FramePlan::Draw);
                    assert_eq!(commands.len(), 7);
                } else {
                    assert!(matches!(plan, FramePlan::Skip(_)));
                    assert!(commands.is_empty());
                }
            }
        }
    }
}

#[test]
fn stage_names_the_first_missing_resource() {
    let all_missing =
        FrameResources { mask_registered: false, view_target_present: false, pipeline_ready: false };
    assert_eq!(plan_frame(all_missing), FramePlan::Skip(SkipCause::MaskUnregistered));
    assert_eq!(
        plan_frame(FrameResources { mask_registered: true, ..all_missing }),
        FramePlan::Skip(SkipCause::NoViewTarget)
    );
    assert_eq!(
        plan_frame(FrameResources { view_target_present: false, ..ready() }),
        FramePlan::Skip(SkipCause::NoViewTarget)
    );
    assert_eq!(
        plan_frame(FrameResources { pipeline_ready: false, ..ready() }),
        FramePlan::Skip(SkipCause::PipelineNotReady)
    );
    assert_eq!(
        plan_frame(FrameResources { mask_registered: false, ..ready() }),
        FramePlan::Skip(SkipCause::MaskUnregistered)
    );
}

#[test]
fn drawing_frame_records_one_fullscreen_triangle() {
    assert_eq!(
        record_commands(ready()),
        vec![
            RenderCommand::CreateBindGroup(BindGroupPlan {
                slot: 0,
                texture: TextureSource::SceneColor,
                sampler: SamplerSource::Pipeline,
            }),
            RenderCommand::CreateBindGroup(BindGroupPlan {
                slot: 1,
                texture: TextureSource::FovMask,
                sampler: SamplerSource::MaskTexture,
            }),
            RenderCommand::BeginPass,
            RenderCommand::SetPipeline,
            RenderCommand::SetBindGroup { slot: 0, texture: TextureSource::SceneColor },
            RenderCommand::SetBindGroup { slot: 1, texture: TextureSource::FovMask },
            RenderCommand::Draw { first_vertex: 0, end_vertex: 3, first_instance: 0, end_instance: 1 },
        ]
    );
}

#[test]
fn layouts_have_one_shape() {
    let expected = vec![
        LayoutEntry {
            binding: 0,
            kind: BindingKind::Texture,
            visibility: StageVisibility { vertex: false, fragment: true },
        },
        LayoutEntry {
            binding: 1,
            kind: BindingKind::Sampler,
            visibility: StageVisibility { vertex: false, fragment: true },
        },
    ];
    assert_eq!(layout_entries(TextureSource::SceneColor), expected);
    assert_eq!(layout_entries(TextureSource::FovMask), expected);
    assert_eq!(bind_group(TextureSource::SceneColor).slot, 0);
    assert_eq!(bind_group(TextureSource::FovMask).slot, 1);
}

#[test]
fn pipeline_is_a_fullscreen_pass_over_both_layouts() {
    assert_eq!(
        pipeline(),
        PipelinePlan {
            first_layout: TextureSource::SceneColor,
            second_layout: TextureSource::FovMask,
            vertex_buffers: 0,
            color_targets: 1,
            blending: false,
            writes_all_channels: true,
            depth_stencil: false,
            samples: 1,
        }
    );
}

#[test]
fn stage_runs_between_tonemapping_and_the_end_of_post_processing() {
    assert_eq!(
        graph_edges(),
        vec![GraphStage::Tonemapping, GraphStage::FovRender, GraphStage::EndMainPassPostProcessing]
    );
}

#[test]
fn stage_names() {
    assert_eq!(node_name(), "fov_render");
    assert_eq!(shader_path(), "shaders/fov.wgsl");
    assert_eq!(fragment_entry_point(), "fragment");
    assert_eq!(pipeline_label(), "fov_pipeline");
    assert_eq!(pass_label(), "fov_pass");
    assert_eq!(layout_label(TextureSource::SceneColor), "fov_view_bind_group_layout");
    assert_eq!(layout_label(TextureSource::FovMask), "fov_texture_bind_group_layout");
    assert_eq!(bind_group_label(TextureSource::SceneColor), "post_process_bind_group");
    assert_eq!(bind_group_label(TextureSource::FovMask), "fov_texture_bind_group");
}

#[test]
fn updater_creates_the_mesh_once() {
    let config = FovConfig::new(1_200_000, 500_000, 32, 204).unwrap();
    let mut updater = MeshUpdater::new(config);
    assert!(!updater.is_spawned());
    assert_eq!(updater.version(), 0);
    assert_eq!(updater.mesh(), None);
    assert_eq!(updater.config(), config);

    assert_eq!(updater.setup(false), SetupOutcome::ActorMissing);
    assert!(!updater.is_spawned());
    assert_eq!(updater.version(), 0);

    assert_eq!(updater.setup(true), SetupOutcome::Spawned);
    assert!(updater.is_spawned());
    assert_eq!(updater.version(), 1);
    assert_eq!(updater.mesh(), Some(&VisibilityMesh::unobstructed(&config)));

    assert_eq!(updater.setup(true), SetupOutcome::AlreadySpawned);
    assert_eq!(updater.setup(false), SetupOutcome::ActorMissing);
    assert_eq!(updater.version(), 1);
    assert_eq!(updater.mesh(), Some(&VisibilityMesh::unobstructed(&config)));
}

#[test]
fn updater_skips_frames_without_mesh_or_actor() {
    let config = FovConfig::new(1_200_000, 500_000, 4, 204).unwrap();
    let mut updater = MeshUpdater::new(config);
    assert_eq!(updater.plan(true), UpdatePlan::Skip(SkipReason::MeshMissing));
    assert_eq!(updater.plan(false), UpdatePlan::Skip(SkipReason::MeshMissing));
    updater.setup(true);
    assert_eq!(updater.plan(false), UpdatePlan::Skip(SkipReason::ActorMissing));
    assert_eq!(updater.plan(true), UpdatePlan::Resample);
}

#[test]
fn updater_replaces_the_geometry_in_place() {
    let config = FovConfig::new(1_200_000, 500_000, 4, 204).unwrap();
    let mut updater = MeshUpdater::new(config);
    let hits = vec![None, Some(100), Some(200), None, Some(499_999)];
    assert_eq!(updater.resample(&hits), Err(UpdateError::MeshMissing));
    assert_eq!(updater.version(), 0);
    updater.setup(true);

    assert_eq!(updater.resample(&hits), Ok(2));
    assert_eq!(updater.version(), 2);
    assert_eq!(updater.mesh(), Some(&VisibilityMesh::from_samples(&config, &hits).unwrap()));
    let radii: Vec<u32> =
        updater.mesh().unwrap().positions()[1..].iter().map(|point| point.radius).collect();
    assert_eq!(radii, vec![500_000, 100, 200, 500_000, 499_999]);

    assert_eq!(
        updater.resample(&vec![None; 4]),
        Err(UpdateError::SampleCountMismatch { expected: 5, found: 4 })
    );
    assert_eq!(updater.version(), 2);
    assert_eq!(updater.mesh(), Some(&VisibilityMesh::from_samples(&config, &hits).unwrap()));

    assert_eq!(updater.resample(&vec![None; 5]), Ok(3));
    assert_eq!(updater.mesh(), Some(&VisibilityMesh::unobstructed(&config)));
}

#[test]
fn updater_drops_the_mesh_at_scene_exit() {
    let config = FovConfig::new(1_200_000, 500_000, 4, 204).unwrap();
    let mut updater = MeshUpdater::new(config);
    updater.setup(true);
    updater.despawn();
    assert!(!updater.is_spawned());
    assert_eq!(updater.version(), 1);
    assert_eq!(updater.plan(true), UpdatePlan::Skip(SkipReason::MeshMissing));
    assert_eq!(updater.setup(true), SetupOutcome::Spawned);
    assert_eq!(updater.version(), 2);
}

#[test]
fn polygon_is_drawn_fully_lit_on_the_capture_layer() {
    let entity = polygon_entity();
    assert_eq!(entity, PolygonEntity { render_layer: 1, material_intensity: 255 });
    let target = OffscreenTarget::initialize(size(4, 4), 204);
    assert_eq!(entity.render_layer, target.capture_camera().render_layer);
    assert_eq!(entity.material_intensity, target.pixel_intensity(true));
}

#[test]
fn updater_tells_when_the_buffers_have_changed() {
    let config = FovConfig::new(1_200_000, 500_000, 4, 204).unwrap();
    let mut updater = MeshUpdater::new(config);
    assert!(!updater.changed_since(0));
    updater.setup(true);
    assert!(updater.changed_since(0));
    let uploaded = updater.version();
    assert!(!updater.changed_since(uploaded));
    assert_eq!(updater.resample(&vec![None; 4]).is_err(), true);
    assert!(!updater.changed_since(uploaded));
    updater.resample(&vec![Some(1); 5]).unwrap();
    assert!(updater.changed_since(uploaded));
}
