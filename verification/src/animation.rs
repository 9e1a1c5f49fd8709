//! Sprite-sheet animations: a list of frames and the counter that steps
//! through it.
//!
//! The clock that says when a frame is over belongs to the embedding
//! application; what the next frame is, is decided here.

use vstd::prelude::*;

verus! {

/// Frames per second of an animation that names no rate of its own.
pub const DEFAULT_FPS: u8 = 12;

/// A sprite-sheet animation: the frames of the sheet that it runs through
/// and its speed.
#[derive(Clone, Debug, PartialEq, Eq)]
pub struct SpriteSheetAnimation {
    frames: Vec<usize>,
    fps: u8,
}

/// The counter of one running animation.
#[derive(Clone, Copy, Debug, PartialEq, Eq)]
pub struct SpriteSheetAnimationState {
    current_frame: usize,
}

/// The count that follows `frame`; it wraps around at the end of its range.
pub open spec fn next_count(frame: usize) -> usize {
    if frame == usize::MAX {
        0
    } else {
        (frame + 1) as usize
    }
}

impl SpriteSheetAnimation {
    /// The frames of the sheet that the animation runs through.
    pub closed spec fn spec_frames(&self) -> Seq<usize> {
        self.frames@
    }

    /// Frames per second.
    pub closed spec fn spec_fps(&self) -> u8 {
        self.fps
    }

    /// The place in the frame list that a running count stands for: the
    /// count taken modulo the number of frames.
    pub open spec fn spec_next_frame(&self, frame: usize) -> int {
        frame as int % self.spec_frames().len() as int
    }

    /// An animation over the given frames at the given speed.
    pub fn from_frames(frames: Vec<usize>, fps: u8) -> (animation: SpriteSheetAnimation)
        ensures
            animation.spec_frames() == frames@,
            animation.spec_fps() == fps,
    {
        SpriteSheetAnimation { frames, fps }
    }

    /// The frames of the sheet that the animation runs through.
    pub fn frames(&self) -> (frames: &Vec<usize>)
        ensures
            frames@ == self.spec_frames(),
    {
        &self.frames
    }

    /// Frames per second.
    pub fn fps(&self) -> (fps: u8)
        ensures
            fps == self.spec_fps(),
    {
        self.fps
    }

    /// The place in the frame list that a running count stands for. An
    /// animation without frames has no such place.
    pub fn next_frame(&self, frame: usize) -> (place: usize)
        requires
            self.spec_frames().len() > 0,
        ensures
            place == self.spec_next_frame(frame),
            place < self.spec_frames().len(),
    {
        frame % self.frames.len()
    }
}

impl Default for SpriteSheetAnimation {
    /// The animation that stands still on the first frame of the sheet.
    fn default() -> (animation: SpriteSheetAnimation)
        ensures
            animation.spec_frames() == seq![0usize],
            animation.spec_fps() == DEFAULT_FPS,
    {
        let mut frames: Vec<usize> = Vec::new();
        frames.push(0);
        assert(frames@ =~= seq![0usize]);
        SpriteSheetAnimation { frames, fps: DEFAULT_FPS }
    }
}

impl SpriteSheetAnimationState {
    /// The running count.
    pub closed spec fn spec_current_frame(&self) -> usize {
        self.current_frame
    }

    /// The state of an animation that has not shown a frame yet.
    pub fn new() -> (state: SpriteSheetAnimationState)
        ensures
            state.spec_current_frame() == 0,
    {
        SpriteSheetAnimationState { current_frame: 0 }
    }

    /// The running count.
    pub fn current_frame(&self) -> (frame: usize)
        ensures
            frame == self.spec_current_frame(),
    {
        self.current_frame
    }

    /// Steps the count and returns it.
    pub fn next(&mut self) -> (frame: usize)
        ensures
            frame == next_count(old(self).spec_current_frame()),
            final(self).spec_current_frame() == frame,
    {
        self.current_frame = self.current_frame.wrapping_add(1);
        self.current_frame
    }

    /// One tick of the animation's clock. Where the clock says that the
    /// frame is over, the count is stepped and the sprite gets the place that
    /// the new count stands for; else nothing changes. An animation without
    /// frames cannot end a frame.
    pub fn update(&mut self, frame_over: bool, animation: &SpriteSheetAnimation) -> (place: Option<
        usize,
    >)
        requires
            frame_over ==> animation.spec_frames().len() > 0,
        ensures
            !frame_over ==> place is None && *final(self) == *old(self),
            frame_over ==> {
                &&& final(self).spec_current_frame() == next_count(old(self).spec_current_frame())
                &&& place == Some(
                    animation.spec_next_frame(final(self).spec_current_frame()) as usize,
                )
            },
    {
        if frame_over {
            let frame = self.next();
            Some(animation.next_frame(frame))
        } else {
            None
        }
    }
}

} // verus!
