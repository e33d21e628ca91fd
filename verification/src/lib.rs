//! Verified core of a minimal real-time rendering harness.
//!
//! The harness owns one GPU shader program and one static full-screen quad,
//! and redraws the quad every frame while feeding the program the elapsed
//! time since construction and the current viewport size. The GPU driver and
//! the windowing layer are external collaborators: every decision this core
//! makes — which geometry is uploaded, which build outcome a compile/link
//! attempt produced, which diagnostic is emitted, how viewport state and the
//! loop state react to window events, and which uniform values a draw call
//! receives — is computed here, over exact integer models, and proved.

pub mod diagnostics;
pub mod driver;
pub mod geometry;
pub mod shader;
