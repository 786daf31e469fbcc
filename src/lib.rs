//! Animation and camera logic for a third-person character: classification of
//! the physics status into a locomotion state, the directive that keeps or
//! switches the playing clip, the controls fed to the physics, the clip
//! binding table, a smoothed follow camera and the sound-effect keys.
pub mod animation;
pub mod binding;
pub mod controls;
pub mod camera;
pub mod audio;
