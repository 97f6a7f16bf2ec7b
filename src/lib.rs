//! Integer core of a Whitted-style ray tracer: texture-table addressing,
//! pixel packing and the frame loops of the host tracer, the render
//! configuration, the frame-loop render modes, and the bookkeeping of the
//! accelerator pipeline (host mirrors, dirty flags and kernel order).
pub mod texture;
pub mod cpu;
pub mod config;
pub mod buffer;
pub mod pipeline;
pub mod state;
