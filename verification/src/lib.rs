//! Software-rendered pixel presentation: a CPU-side pixel buffer matched to a
//! platform's native pixel format, with row-level access to the raw pixel
//! memory and a description of the blit that transfers the buffer (or a
//! sub-rectangle of it) onto a window surface.
//!
//! The platform backends that perform the actual native transfer live outside
//! this crate; everything here works on plain values: formats, resolved
//! surface targets, byte rows and blit rectangles.

pub mod blit;
pub mod buffer;
pub mod format;
pub mod handle;
pub mod laws;

pub use blit::{BlitCommand, BlitError};
pub use buffer::{PixelBuffer, PixelBufferCreationError};
pub use format::{PixelBufferFormatType, Platform};
pub use handle::{DisplayHandleKind, SurfaceTarget, WindowHandleKind};
