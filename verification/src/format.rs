//! Pixel format descriptors and the per-platform format capability registry.
//!
//! A format names a channel layout (channel count and order); a platform
//! accepts a format only through an explicit capability declaration here,
//! never by structural inference. Each platform has exactly one native
//! format: the layout its blit primitive consumes without conversion.

use vstd::prelude::*;

verus! {

/// A pixel channel layout: how many bytes one pixel occupies and in which
/// order the channels are stored.
#[derive(Clone, Copy, Debug, PartialEq, Eq, Structural)]
pub enum PixelBufferFormatType {
    /// Four bytes per pixel, blue/green/red/alpha order.
    BGRA,
    /// Three bytes per pixel, blue/green/red order.
    BGR,
    /// Four bytes per pixel, red/green/blue/alpha order.
    RGBA,
}

/// The platform backend a surface belongs to.
#[derive(Clone, Copy, Debug, PartialEq, Eq, Structural)]
pub enum Platform {
    /// A desktop windowing system with a separate display connection.
    X11,
    /// A browser-managed canvas surface.
    Web,
}

impl PixelBufferFormatType {
    /// How many bytes one pixel of this format occupies.
    pub open spec fn spec_bytes_per_pixel(self) -> nat {
        match self {
            PixelBufferFormatType::BGRA => 4,
            PixelBufferFormatType::BGR => 3,
            PixelBufferFormatType::RGBA => 4,
        }
    }

    /// How many bits one pixel of this format occupies.
    pub open spec fn spec_bits_per_pixel(self) -> nat {
        self.spec_bytes_per_pixel() * 8
    }

    /// Bytes per pixel of this format.
    pub fn bytes_per_pixel(self) -> (n: usize)
        ensures
            n == self.spec_bytes_per_pixel(),
    {
        match self {
            PixelBufferFormatType::BGRA => 4,
            PixelBufferFormatType::BGR => 3,
            PixelBufferFormatType::RGBA => 4,
        }
    }

    /// Bits per pixel of this format.
    pub fn bits_per_pixel(self) -> (n: usize)
        ensures
            n == self.spec_bits_per_pixel(),
    {
        self.bytes_per_pixel() * 8
    }
}

impl Platform {
    /// The one format this platform's blit path produces with no added
    /// marshaling.
    pub open spec fn spec_native_format(self) -> PixelBufferFormatType {
        match self {
            Platform::X11 => PixelBufferFormatType::BGRA,
            Platform::Web => PixelBufferFormatType::RGBA,
        }
    }

    /// The capability registry: the formats this platform can present
    /// without conversion.
    pub open spec fn spec_supports(self, format: PixelBufferFormatType) -> bool {
        match self {
            Platform::X11 => format == PixelBufferFormatType::BGRA
                || format == PixelBufferFormatType::BGR,
            Platform::Web => format == PixelBufferFormatType::RGBA,
        }
    }

    /// The platform's native format.
    pub fn native_format(self) -> (f: PixelBufferFormatType)
        ensures
            f == self.spec_native_format(),
    {
        match self {
            Platform::X11 => PixelBufferFormatType::BGRA,
            Platform::Web => PixelBufferFormatType::RGBA,
        }
    }

    /// Whether this platform declares the capability to present `format`.
    pub fn supports(self, format: PixelBufferFormatType) -> (b: bool)
        ensures
            b == self.spec_supports(format),
    {
        match self {
            Platform::X11 => matches!(format, PixelBufferFormatType::BGRA | PixelBufferFormatType::BGR),
            Platform::Web => matches!(format, PixelBufferFormatType::RGBA),
        }
    }

    /// The byte every freshly allocated pixel of this platform's buffer
    /// holds: an opaque default fill, white on the desktop backend and
    /// transparent black on the browser backend.
    pub open spec fn spec_default_fill(self) -> u8 {
        match self {
            Platform::X11 => 255,
            Platform::Web => 0,
        }
    }

    /// The default fill byte for buffers allocated on this platform.
    pub fn default_fill(self) -> (b: u8)
        ensures
            b == self.spec_default_fill(),
    {
        match self {
            Platform::X11 => 255,
            Platform::Web => 0,
        }
    }
}

/// The native format is always among the supported formats.
pub proof fn lemma_native_format_supported(platform: Platform)
    ensures
        platform.spec_supports(platform.spec_native_format()),
{
}

} // verus!
