//! Pen input handling for a pressure-sensitive e-paper sketch pad: the tool
//! and brush store, the stroke smoother that turns pen samples into tapered
//! curve segments, the digitizer state machine that tells drawing from
//! pointing, the refresh policy for the segments it draws, and the single
//! slot that a snapshot of the canvas is kept in.
//!
//! Everything here works on plain values, but for the compression of a
//! snapshot, which libremarkable does; the device, the framebuffer and the
//! event loop are driven by the caller.

pub mod mode;
pub mod stroke;
pub mod canvas;
pub mod refresh;
pub mod pad;
pub mod snapshot;
