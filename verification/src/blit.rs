//! The blit transfer: copying the buffer, or a sub-rectangle of it, onto
//! the window surface.
//!
//! The native image-transfer call is a platform call and is performed by the
//! platform backend around this crate. What is decided here, and what the
//! backend must forward unchanged, is the full parameter set of that call:
//! which surface, which source origin within the buffer, which destination
//! origin on the surface, and which extent. A full-surface blit is by
//! definition the rectangular blit with both origins at zero and the
//! buffer's own extent. No bounds are enforced on the rectangle: an
//! out-of-range rectangle is forwarded to the native call, whose own
//! clipping governs the outcome, and the buffer's memory is never touched.

use vstd::prelude::*;

use crate::buffer::PixelBuffer;
use crate::handle::SurfaceTarget;

verus! {

/// The parameters of one native image-transfer call, in pixel coordinates.
#[derive(Clone, Copy, Debug, PartialEq, Eq, Structural)]
pub struct BlitCommand {
    /// The surface the pixels go to.
    pub target: SurfaceTarget,
    /// Source origin within the buffer.
    pub src_x: u32,
    /// Source origin within the buffer.
    pub src_y: u32,
    /// Destination origin on the surface.
    pub dst_x: u32,
    /// Destination origin on the surface.
    pub dst_y: u32,
    /// Extent of the transfer in pixels.
    pub width: u32,
    /// Extent of the transfer in pixels.
    pub height: u32,
}

/// Why a blit failed: the native transfer call itself failed, or the pixel
/// data could not be encoded into what that call expects. The buffer stays
/// valid and a later blit may be retried.
#[derive(Clone, Copy, Debug, PartialEq, Eq, Structural)]
pub enum BlitError {
    /// The platform backend reported that the native transfer failed.
    TransferFailed,
}

impl PixelBuffer {
    /// The transfer a rectangular blit with the given source origin,
    /// destination origin and extent issues.
    pub open spec fn spec_blit_rect(
        self,
        src_pos: (u32, u32),
        dst_pos: (u32, u32),
        blit_size: (u32, u32),
    ) -> BlitCommand {
        BlitCommand {
            target: self.spec_target(),
            src_x: src_pos.0,
            src_y: src_pos.1,
            dst_x: dst_pos.0,
            dst_y: dst_pos.1,
            width: blit_size.0,
            height: blit_size.1,
        }
    }

    /// The transfer a full-surface blit issues: both origins at zero, the
    /// whole buffer as extent.
    pub open spec fn spec_blit(self) -> BlitCommand {
        self.spec_blit_rect((0, 0), (0, 0), (self.spec_width(), self.spec_height()))
    }

    /// Describes the rectangular blit of `blit_size` pixels from
    /// `src_pos` within the buffer to `dst_pos` on the buffer's surface
    /// target. The rectangle is passed through as given: out-of-range
    /// extents are left to the native call's own clipping, and the
    /// buffer's memory is not touched.
    pub fn blit_rect(
        &self,
        src_pos: (u32, u32),
        dst_pos: (u32, u32),
        blit_size: (u32, u32),
    ) -> (c: BlitCommand)
        ensures
            c == self.spec_blit_rect(src_pos, dst_pos, blit_size),
    {
        BlitCommand {
            target: self.target(),
            src_x: src_pos.0,
            src_y: src_pos.1,
            dst_x: dst_pos.0,
            dst_y: dst_pos.1,
            width: blit_size.0,
            height: blit_size.1,
        }
    }

    /// Describes the full-surface blit: exactly the rectangular blit with
    /// source origin `(0, 0)`, destination origin `(0, 0)` and the
    /// buffer's own width and height as extent.
    pub fn blit(&self) -> (c: BlitCommand)
        ensures
            c == self.spec_blit(),
            c == self.spec_blit_rect((0, 0), (0, 0), (self.spec_width(), self.spec_height())),
    {
        let w = self.width();
        let h = self.height();
        self.blit_rect((0, 0), (0, 0), (w, h))
    }
}

/// A full-surface blit and a rectangular blit over the buffer's full
/// extent issue the same transfer.
pub proof fn lemma_blit_is_full_rect(buf: PixelBuffer)
    ensures
        buf.spec_blit() == buf.spec_blit_rect(
            (0, 0),
            (0, 0),
            (buf.spec_width(), buf.spec_height()),
        ),
{
}

} // verus!
