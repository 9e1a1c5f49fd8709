//! Marker traits for the states that the camera and the mouse plug-ins can
//! be keyed by.

use vstd::prelude::*;

verus! {

/// What a type needs to serve as the state of the camera.
pub trait CameraState: std::fmt::Debug + Clone + Copy + PartialEq + Eq + std::hash::Hash + Sync + Send {

}

/// What a type needs to serve as the state of the mouse.
pub trait MouseState: std::fmt::Debug + Clone + Copy + PartialEq + Eq + std::hash::Hash + Sync + Send {

}

} // verus!
