//! Camera uniform state for a real-time renderer: the viewport model and the
//! protocol that keeps a staging copy of the uniforms and the copy resident in
//! GPU-visible memory in step across frame updates and resizes.

pub mod extent;
pub mod frame_sync;

pub use extent::Extent;
pub use frame_sync::{Slots, UniformSync};
