//! Model of a live shader-preview viewer: the render/reload state machine.
//!
//! The library holds the logic of the viewer — frame timing, the shader
//! compile/link pipeline with error recovery, the atomic program swap, event
//! processing and the main-loop decisions — on plain values: GPU object
//! handles as integers, times as nanosecond counts. The windowing, GPU and
//! file-watching calls themselves live outside the library and feed it their
//! results.

pub mod context;
pub mod mainloop;
pub mod shaders;
pub mod time;
pub mod watcher;
