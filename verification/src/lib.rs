//! Model of a minimal real-time rendering demo: a fixed colored quad is drawn
//! each frame while directional key input nudges a screen-space offset uniform.
//!
//! The GPU and windowing work itself happens outside this crate; here live the
//! decisions and the data the demo feeds to the GPU: the key-input state, the
//! camera offset (an exact count of steps along each axis), the reaction to
//! each window event, the choice of surface format, the recovery action for
//! each surface error, and the byte images of the uniform and vertex buffers.

pub mod encode;
pub mod events;
pub mod input;
pub mod minor;
pub mod state;
pub mod vertex;
