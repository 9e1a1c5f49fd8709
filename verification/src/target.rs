//! The offscreen capture pass: a colour target of the size of the viewport,
//! into which a camera of its own draws nothing but the visibility polygon.
//!
//! A pixel that the polygon covers reads as fully lit, any other pixel reads
//! as the clear intensity. The compositing stage uses the picture as a mask,
//! not as something to look at.

use vstd::prelude::*;

verus! {

/// Intensity of a mask pixel that the visibility polygon covers.
pub const LIT_INTENSITY: u8 = 255;

/// Order of the capture camera: it draws before the main camera.
pub const CAPTURE_CAMERA_ORDER: i32 = -1;

/// Order of the main camera.
pub const MAIN_CAMERA_ORDER: i32 = 0;

/// The render layer that the capture camera sees and the visibility polygon
/// is drawn on, and nothing else.
pub const CAPTURE_RENDER_LAYER: u8 = 1;

/// Width and height of a viewport or a texture in pixels.
#[derive(Clone, Copy, Debug, PartialEq, Eq)]
pub struct ViewportSize {
    pub width: u32,
    pub height: u32,
}

/// Layout of one pixel of a colour target.
#[derive(Clone, Copy, Debug, PartialEq, Eq)]
pub enum PixelFormat {
    /// Four 8-bit channels, red first, colour gamma-corrected.
    Rgba8UnormSrgb,
}

/// What a texture may be used for.
#[derive(Clone, Copy, Debug, PartialEq, Eq)]
pub struct TextureUsage {
    /// A shader may read it.
    pub texture_binding: bool,
    /// Data may be copied into it.
    pub copy_destination: bool,
    /// A render pass may draw into it.
    pub render_attachment: bool,
}

/// Everything a graphics backend needs to allocate the target.
#[derive(Clone, Copy, Debug, PartialEq, Eq)]
pub struct TextureDescription {
    pub width: u32,
    pub height: u32,
    pub depth_or_array_layers: u32,
    pub mip_level_count: u32,
    pub sample_count: u32,
    pub format: PixelFormat,
    pub usage: TextureUsage,
}

/// The camera of the capture pass.
#[derive(Clone, Copy, Debug, PartialEq, Eq)]
pub struct CaptureCamera {
    /// Place among the cameras; a lower order draws earlier.
    pub order: i32,
    /// The one render layer that the camera sees.
    pub render_layer: u8,
    /// Gray level that the camera clears its target to.
    pub clear_intensity: u8,
}

/// How the visibility polygon is put into the scene: on the capture layer
/// alone, in one flat, unlit colour.
#[derive(Clone, Copy, Debug, PartialEq, Eq)]
pub struct PolygonEntity {
    /// The one render layer that the polygon is drawn on.
    pub render_layer: u8,
    /// Gray level of the polygon's material.
    pub material_intensity: u8,
}

/// The offscreen colour target.
#[derive(Clone, Copy, Debug, PartialEq, Eq)]
pub struct OffscreenTarget {
    /// Pixel dimensions; they follow the viewport.
    pub size: ViewportSize,
    /// Gray level of a pixel that the visibility polygon does not cover.
    pub clear_intensity: u8,
}

/// What a resize notification did to the target.
#[derive(Clone, Copy, Debug, PartialEq, Eq)]
pub enum ResizeOutcome {
    /// There was no notification to react to.
    Idle,
    /// There is no target yet.
    TargetMissing,
    /// The target had the size of the viewport already.
    Unchanged,
    /// The target took the size of the viewport.
    Resized,
}

impl OffscreenTarget {
    /// The target with another size. Nothing else about it changes.
    pub open spec fn resized(self, size: ViewportSize) -> OffscreenTarget {
        OffscreenTarget { size, ..self }
    }

    /// The intensity that a pixel of the mask reads as.
    pub open spec fn spec_pixel_intensity(self, covered: bool) -> u8 {
        if covered {
            LIT_INTENSITY
        } else {
            self.clear_intensity
        }
    }

    /// The allocation of the target.
    pub open spec fn spec_describe(self) -> TextureDescription {
        TextureDescription {
            width: self.size.width,
            height: self.size.height,
            depth_or_array_layers: 1,
            mip_level_count: 1,
            sample_count: 1,
            format: PixelFormat::Rgba8UnormSrgb,
            usage: TextureUsage {
                texture_binding: true,
                copy_destination: true,
                render_attachment: true,
            },
        }
    }

    /// The camera that draws into the target.
    pub open spec fn spec_capture_camera(self) -> CaptureCamera {
        CaptureCamera {
            order: CAPTURE_CAMERA_ORDER,
            render_layer: CAPTURE_RENDER_LAYER,
            clear_intensity: self.clear_intensity,
        }
    }

    /// A target of the size of the viewport that clears to the given gray
    /// level.
    pub fn initialize(viewport: ViewportSize, clear_intensity: u8) -> (target: OffscreenTarget)
        ensures
            target == (OffscreenTarget { size: viewport, clear_intensity }),
    {
        OffscreenTarget { size: viewport, clear_intensity }
    }

    /// Gives the target the size of the viewport.
    pub fn on_viewport_resize(&mut self, new_size: ViewportSize)
        ensures
            *final(self) == old(self).resized(new_size),
    {
        self.size = new_size;
    }

    /// The allocation of the target: one two-dimensional layer of the
    /// target's size without mip levels or multisampling, four gamma-corrected
    /// 8-bit channels, usable as a render target and readable by shaders.
    pub fn describe(&self) -> (description: TextureDescription)
        ensures
            description == self.spec_describe(),
    {
        TextureDescription {
            width: self.size.width,
            height: self.size.height,
            depth_or_array_layers: 1,
            mip_level_count: 1,
            sample_count: 1,
            format: PixelFormat::Rgba8UnormSrgb,
            usage: TextureUsage {
                texture_binding: true,
                copy_destination: true,
                render_attachment: true,
            },
        }
    }

    /// The camera that draws into the target: ahead of the main camera,
    /// restricted to the capture layer, clearing to the target's gray level.
    pub fn capture_camera(&self) -> (camera: CaptureCamera)
        ensures
            camera == self.spec_capture_camera(),
            camera.order < MAIN_CAMERA_ORDER,
    {
        CaptureCamera {
            order: CAPTURE_CAMERA_ORDER,
            render_layer: CAPTURE_RENDER_LAYER,
            clear_intensity: self.clear_intensity,
        }
    }

    /// The intensity that a pixel of the mask reads as after the capture
    /// pass: fully lit where the visibility polygon covers it, the clear
    /// intensity elsewhere.
    pub fn pixel_intensity(&self, covered: bool) -> (intensity: u8)
        ensures
            intensity == self.spec_pixel_intensity(covered),
    {
        if covered {
            LIT_INTENSITY
        } else {
            self.clear_intensity
        }
    }
}

/// How the visibility polygon is put into the scene: where the capture
/// camera sees it and no other camera does, fully lit.
pub fn polygon_entity() -> (entity: PolygonEntity)
    ensures
        entity == (PolygonEntity {
            render_layer: CAPTURE_RENDER_LAYER,
            material_intensity: LIT_INTENSITY,
        }),
{
    PolygonEntity { render_layer: CAPTURE_RENDER_LAYER, material_intensity: LIT_INTENSITY }
}

/// The capture pass over the time of a scene: it has no target before the
/// scene is entered and none after it is left.
#[derive(Clone, Copy, Debug, PartialEq, Eq)]
pub struct CapturePass {
    /// Gray level that a target of this pass clears to.
    pub clear_intensity: u8,
    /// The target, while the scene lasts.
    pub target: Option<OffscreenTarget>,
}

impl CapturePass {
    /// The pass after `notifications` resize notifications in a viewport of
    /// size `live`.
    pub open spec fn reacted(self, notifications: nat, live: ViewportSize) -> CapturePass {
        match self.target {
            Some(target) if notifications > 0 => CapturePass {
                target: Some(target.resized(live)),
                ..self
            },
            _ => self,
        }
    }

    /// What `notifications` resize notifications in a viewport of size `live`
    /// do to the target.
    pub open spec fn reaction(self, notifications: nat, live: ViewportSize) -> ResizeOutcome {
        if notifications == 0 {
            ResizeOutcome::Idle
        } else {
            match self.target {
                None => ResizeOutcome::TargetMissing,
                Some(target) => if target.size == live {
                    ResizeOutcome::Unchanged
                } else {
                    ResizeOutcome::Resized
                },
            }
        }
    }

    /// A pass without a target.
    pub fn new(clear_intensity: u8) -> (pass: CapturePass)
        ensures
            pass == (CapturePass { clear_intensity, target: None }),
    {
        CapturePass { clear_intensity, target: None }
    }

    /// Creates the target in the size of the viewport when the scene is
    /// entered, and returns it.
    pub fn enter_scene(&mut self, viewport: ViewportSize) -> (target: OffscreenTarget)
        ensures
            target == (OffscreenTarget {
                size: viewport,
                clear_intensity: old(self).clear_intensity,
            }),
            *final(self) == (CapturePass { target: Some(target), ..*old(self) }),
    {
        let target = OffscreenTarget::initialize(viewport, self.clear_intensity);
        self.target = Some(target);
        target
    }

    /// Drops the target when the scene is left.
    pub fn exit_scene(&mut self)
        ensures
            *final(self) == (CapturePass { target: None, ..*old(self) }),
    {
        self.target = None;
    }

    /// Reacts to the resize notifications of one frame: with at least one
    /// notification and a target, the target takes the size that the viewport
    /// has now, however many notifications there were and whatever sizes
    /// they passed through.
    pub fn react_to_resize(&mut self, notifications: usize, live: ViewportSize) -> (outcome:
        ResizeOutcome)
        ensures
            *final(self) == old(self).reacted(notifications as nat, live),
            outcome == old(self).reaction(notifications as nat, live),
    {
        if notifications == 0 {
            return ResizeOutcome::Idle;
        }
        match self.target {
            None => ResizeOutcome::TargetMissing,
            Some(target) => {
                let same = target.size.width == live.width && target.size.height == live.height;
                let mut resized = target;
                resized.on_viewport_resize(live);
                self.target = Some(resized);
                if same {
                    ResizeOutcome::Unchanged
                } else {
                    ResizeOutcome::Resized
                }
            },
        }
    }
}

/// Resizing a target to the size that it has changes nothing, and resizing
/// it twice to one size is the same as resizing it once.
pub proof fn lemma_resize_idempotent(target: OffscreenTarget, size: ViewportSize)
    ensures
        target.resized(target.size) == target,
        target.resized(size).size == size,
        target.resized(size).resized(size) == target.resized(size),
        target.resized(size).clear_intensity == target.clear_intensity,
        target.resized(size).spec_describe().format == target.spec_describe().format,
        target.resized(size).spec_describe().usage == target.spec_describe().usage,
        target.resized(size).spec_capture_camera() == target.spec_capture_camera(),
{
}

/// Only the last size counts: a resize wipes out the one before it.
pub proof fn lemma_resize_overwrites(target: OffscreenTarget, first: ViewportSize, second: ViewportSize)
    ensures
        target.resized(first).resized(second) == target.resized(second),
{
}

/// Notifications that leave the viewport's size as the target has it are a
/// no-op, and reacting again in an unchanged viewport changes nothing more.
pub proof fn lemma_reaction_idempotent(
    pass: CapturePass,
    notifications: nat,
    again: nat,
    live: ViewportSize,
)
    ensures
        pass.target matches Some(target) && target.size == live ==> pass.reacted(
            notifications,
            live,
        ) == pass,
        notifications > 0 ==> pass.reacted(notifications, live).reacted(again, live)
            == pass.reacted(notifications, live),
        notifications > 0 && again > 0 ==> pass.reacted(notifications, live).reaction(again, live)
            != ResizeOutcome::Resized,
        pass.reacted(notifications, live).clear_intensity == pass.clear_intensity,
        pass.reacted(notifications, live).target is Some <==> pass.target is Some,
{
}

} // verus!
