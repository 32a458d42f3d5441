//! Verified core of the Bevy TA toolkit: selection state, render-profile
//! bookkeeping, material-parameter dispatch, debug-camera bookkeeping and the
//! path and text rules that the editor and the remote-debug interface share.
pub mod text;
pub mod sorting;
pub mod profile;
pub mod paths;
pub mod shader_profile;
pub mod toon;
pub mod remote;
pub mod selection;
pub mod debug_camera;
pub mod picking;
pub mod gizmos;
pub mod brp_tools;
pub mod material_panel;
