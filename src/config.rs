use vstd::prelude::*;

use crate::geometry::Extent3d;

verus! {

/// Native code of the "invalid" pixel format: the format of an unconfigured surface.
pub const PIXEL_FORMAT_INVALID: u64 = 0;

/// Native code of the four-channel 16-bit floating-point pixel format.
pub const PIXEL_FORMAT_RGBA16_FLOAT: u64 = 115;

/// A native pixel format, by its numeric code.
#[derive(Clone, Copy, Debug, PartialEq, Eq, Structural)]
pub struct PixelFormat {
    pub code: u64,
}

impl PixelFormat {
    pub fn invalid() -> (r: PixelFormat)
        ensures
            r.code == PIXEL_FORMAT_INVALID,
    {
        PixelFormat { code: PIXEL_FORMAT_INVALID }
    }

    pub open spec fn is_invalid(self) -> bool {
        self.code == PIXEL_FORMAT_INVALID
    }

    /// Whether content in this format asks for extended dynamic range.
    pub open spec fn wants_edr(self) -> bool {
        self.code == PIXEL_FORMAT_RGBA16_FLOAT
    }

    pub fn is_rgba16_float(&self) -> (r: bool)
        ensures
            r == self.wants_edr(),
    {
        self.code == PIXEL_FORMAT_RGBA16_FLOAT
    }
}

/// How presentation is paced against the display.
#[derive(Clone, Copy, Debug, PartialEq, Eq, Structural)]
pub enum PresentMode {
    AutoVsync,
    AutoNoVsync,
    Fifo,
    FifoRelaxed,
    Immediate,
    Mailbox,
}

impl PresentMode {
    /// Every mode but `Immediate` keeps display synchronisation on.
    pub open spec fn display_sync_spec(self) -> bool {
        !(self is Immediate)
    }

    pub fn display_sync(&self) -> (r: bool)
        ensures
            r == self.display_sync_spec(),
    {
        !matches!(self, PresentMode::Immediate)
    }
}

/// How the compositor blends the surface's alpha channel.
#[derive(Clone, Copy, Debug, PartialEq, Eq, Structural)]
pub enum CompositeAlphaMode {
    Opaque,
    PreMultiplied,
    PostMultiplied,
}

/// Flag of [`TextureUses`] for use as a colour render target.
pub const TEXTURE_USES_COLOR_TARGET: u32 = 0x10;

/// The set of ways a texture may be used, as bit flags.
#[derive(Clone, Copy, Debug, PartialEq, Eq, Structural)]
pub struct TextureUses {
    pub bits: u32,
}

impl TextureUses {
    /// Used as a colour render target and nothing else.
    pub open spec fn is_color_target_only(self) -> bool {
        self.bits == TEXTURE_USES_COLOR_TARGET
    }

    pub fn color_target_only(&self) -> (r: bool)
        ensures
            r == self.is_color_target_only(),
    {
        self.bits == TEXTURE_USES_COLOR_TARGET
    }
}

/// What a swapchain is configured with.
#[derive(Clone, Copy, Debug, PartialEq, Eq, Structural)]
pub struct SurfaceConfiguration {
    /// Number of drawables the compositor may keep in flight.
    pub swap_chain_size: u32,
    pub present_mode: PresentMode,
    pub composite_alpha_mode: CompositeAlphaMode,
    /// The native pixel format, as the device's capability table maps the
    /// requested texture format.
    pub format: PixelFormat,
    pub extent: Extent3d,
    pub usage: TextureUses,
}

/// What configuration needs to know of the device the layer is bound to.
#[derive(Clone, Copy, Debug, PartialEq, Eq, Structural)]
pub struct DeviceInfo {
    /// Identity of the device, as the layer records its binding.
    pub id: u64,
    pub can_set_next_drawable_timeout: bool,
    pub can_set_display_sync: bool,
}

} // verus!
