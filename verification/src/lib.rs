//! Verified core of a top-down 2D game with an occlusion-aware field of
//! view.
//!
//! The greater part of the crate is the field of view of the one actor that
//! the player steers: which rays are cast across the cone (`sweep`), which
//! rim point each ray yields and how the triangle fan over them is indexed
//! (`mesh`), who creates and rewrites that mesh (`updater`), how the
//! offscreen mask target follows the viewport (`target`), when the
//! compositing stage draws and what it records (`compositor`), and how a
//! pixel of the scene is blended with the mask (`blend`). All of it is
//! integer arithmetic over the parameters in `config`.
//!
//! The rest are the small rules of the game around it: frame stepping of
//! sprite animations, the choice of the sprite to animate, movement keys,
//! the inventory and the dots of the loading screen.
//!
//! Trigonometry, ray casting, windowing and all GPU work belong to the
//! embedding application, which feeds plain values in and takes plain values
//! back.

pub mod config;
pub mod sweep;
pub mod mesh;
pub mod updater;
pub mod target;
pub mod compositor;
pub mod blend;
pub mod animation;
pub mod animator;
pub mod game;
pub mod input;
pub mod inventory;
pub mod loading;
pub mod markers;
