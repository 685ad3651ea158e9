//! Verified core of a shader-wallpaper client: the surface-negotiation
//! state machine, the frame-paced render schedule, and the shader
//! selection/adaptation rules. The unverified binary performs the
//! display-server and GPU calls that these decisions prescribe.

pub mod adaptors;
pub mod app_state;
pub mod cli;
pub mod graphics;
pub mod laws;
pub mod model;
