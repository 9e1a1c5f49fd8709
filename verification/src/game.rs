//! The player's animations and when each of them plays.

use vstd::prelude::*;
use crate::animation::SpriteSheetAnimation;

verus! {

/// Frames per second of the player's animations.
pub const ANIMATION_FPS: u8 = 12;

/// Width and height of one tile of the player's sprite sheet in pixels.
pub const SHEET_TILE_SIZE: u32 = 64;

/// Number of tiles in the one row of the player's sprite sheet.
pub const SHEET_COLUMNS: usize = 11;

/// The animations of the player.
#[derive(Clone, Copy, Debug, PartialEq, Eq, Hash)]
pub enum Animations {
    Idle,
    Walk,
}

impl Default for Animations {
    /// A player at rest.
    fn default() -> (animation: Animations)
        ensures
            animation == Animations::Idle,
    {
        Animations::Idle
    }
}

/// The frames of an animation on the sheet: the first tile for standing,
/// the ten tiles after it for walking.
pub open spec fn frames_of(animation: Animations) -> Seq<usize> {
    match animation {
        Animations::Idle => seq![0usize],
        Animations::Walk => Seq::new(10, |i: int| (i + 1) as usize),
    }
}

/// The animation that plays: walking while the player moves, standing
/// otherwise.
pub fn animation_selector(moving: bool) -> (animation: Animations)
    ensures
        moving ==> animation == Animations::Walk,
        !moving ==> animation == Animations::Idle,
{
    if moving {
        Animations::Walk
    } else {
        Animations::Idle
    }
}

/// Builds one of the player's animations.
pub fn player_animation(animation: Animations) -> (sheet: SpriteSheetAnimation)
    ensures
        sheet.spec_frames() == frames_of(animation),
        sheet.spec_fps() == ANIMATION_FPS,
        sheet.spec_frames().len() > 0,
        forall|i: int|
            0 <= i < sheet.spec_frames().len() ==> (#[trigger] sheet.spec_frames()[i])
                < SHEET_COLUMNS,
{
    let mut frames: Vec<usize> = Vec::new();
    match animation {
        Animations::Idle => {
            frames.push(0);
        },
        Animations::Walk => {
            let mut tile: usize = 1;
            while tile < SHEET_COLUMNS
                invariant
                    1 <= tile <= SHEET_COLUMNS,
                    frames@ == Seq::new((tile - 1) as nat, |i: int| (i + 1) as usize),
                decreases SHEET_COLUMNS - tile,
            {
                frames.push(tile);
                tile = tile + 1;
            }
        },
    }
    assert(frames@ =~= frames_of(animation));
    SpriteSheetAnimation::from_frames(frames, ANIMATION_FPS)
}

} // verus!
