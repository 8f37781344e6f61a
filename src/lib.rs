//! Surface and swapchain state for a compositor-backed presentation layer.
//!
//! The library keeps a record of every property it programs into the layer it
//! owns, decides which layer operations each request needs, and hands them to
//! the caller as plain [`LayerCommand`] values to carry out on the real layer.
mod config;
mod delegate;
mod geometry;
mod laws;
mod layer;
mod surface;
mod view_layer;

pub use config::{
    CompositeAlphaMode, DeviceInfo, PixelFormat, PresentMode, SurfaceConfiguration, TextureUses,
    PIXEL_FORMAT_INVALID, PIXEL_FORMAT_RGBA16_FLOAT, TEXTURE_USES_COLOR_TARGET,
};
pub use geometry::{physical_extent, physical_extent_spec, scaled_pixels, CopyExtent, Extent3d, Fixed, LogicalSize, FIXED_ONE};
pub use layer::{lemma_apply_all_concat, DrawableSize, LayerCommand, LayerState};
pub use surface::{
    lemma_apply_all_push, lemma_configure_commands_effect, opacity_after, push_if,
    AcquiredSurfaceTexture, PlatformProfile, Surface, SurfaceModel, SurfaceTexture, TextureInfo,
    TextureType,
};
pub use laws::{
    configure_each, lemma_configure_idempotent, lemma_dimensions_after_configure,
    lemma_reconfigure_after_unconfigure,
};
pub use delegate::{
    grant_step, grants, lemma_registration_exactly_once, registrations,
    should_inherit_contents_scale_from_window, DelegateGrant, DelegateRegistry,
};
pub use view_layer::{plan_view_layer, view_layer_setup, LayerSetup, SublayerSetup};
