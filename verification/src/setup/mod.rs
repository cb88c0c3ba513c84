//! One-shot selection logic used while the renderer is brought up.

pub mod buffer;
pub mod devices;
pub mod extensions;
pub mod frame_sync;
pub mod graphics_pipeline;
pub mod image;
pub mod instance;
pub mod swapchain;
pub mod validation_layers;
