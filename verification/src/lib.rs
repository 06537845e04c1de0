//! Decision logic of a small GPU demo viewer.
//!
//! A window shows one animated effect (an orbiting dot) behind a settings
//! panel. Everything that talks to the window system, the user interface
//! toolkit or the GPU lives with the caller. This crate holds what those
//! calls are made with and what is done with their answers: the parameter
//! record and its byte layout, the pipeline description, the per-frame
//! update, the draw commands, the registry of demos and the reactions of
//! the frame loop to window events.
//!
//! Single-precision values are never computed on here. They are carried as
//! bit patterns ([`Scalar`]); the animation clock is kept exactly, as a
//! count of tenths of a degree.

pub mod scalar;
pub mod layout;
pub mod vertex;
pub mod pipeline;
pub mod draw;
pub mod orbit;
pub mod demos;
pub mod driver;

pub use scalar::{Rgb, Scalar};
pub use vertex::{Vertex2D, Vertex3D};
pub use demos::{DemoInput, WgpuDemo, WgpuDemos};
pub use draw::DrawCommand;
pub use orbit::{OrbitDemo, OrbitDemoUniform, OrbitInput, OrbitParams};
