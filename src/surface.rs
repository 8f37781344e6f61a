use vstd::prelude::*;

use crate::config::{CompositeAlphaMode, DeviceInfo, PixelFormat, SurfaceConfiguration};
use crate::geometry::{physical_extent, physical_extent_spec, CopyExtent, Extent3d, Fixed, LogicalSize};
use crate::layer::{DrawableSize, LayerCommand, LayerState};

verus! {

/// The kind of platform a surface runs on, where the two differ in how a
/// layer is set up and kept in step with its view.
#[derive(Clone, Copy, Debug, PartialEq, Eq, Structural)]
pub enum PlatformProfile {
    /// A touch platform: a layer made for a view does not follow the view's
    /// frame by itself.
    Touch,
    Desktop,
}

/// The dimensionality of a texture.
#[derive(Clone, Copy, Debug, PartialEq, Eq, Structural)]
pub enum TextureType {
    D2,
}

/// What the rest of the abstraction needs to know of an acquired texture.
#[derive(Clone, Copy, Debug, PartialEq, Eq, Structural)]
pub struct TextureInfo {
    pub raw_format: PixelFormat,
    pub raw_type: TextureType,
    pub array_layers: u32,
    pub mip_levels: u32,
    pub copy_size: CopyExtent,
}

/// A drawable from the compositor, with the description of its texture.
pub struct SurfaceTexture<D> {
    pub texture: TextureInfo,
    /// The drawable and its backing texture, as the compositor handed them out.
    pub drawable: D,
    pub present_with_transaction: bool,
}

/// The result of a successful acquisition.
pub struct AcquiredSurfaceTexture<D> {
    pub texture: SurfaceTexture<D>,
    pub suboptimal: bool,
}

/// The state of a surface, as its contracts speak of it.
pub struct SurfaceModel<V> {
    pub view: Option<V>,
    pub layer: LayerState,
    pub raw_swapchain_format: PixelFormat,
    pub extent: Extent3d,
    pub present_with_transaction: bool,
    pub profile: PlatformProfile,
}

/// Appends `cmd` when `cond` holds.
pub open spec fn push_if(cmds: Seq<LayerCommand>, cond: bool, cmd: LayerCommand) -> Seq<LayerCommand> {
    if cond {
        cmds.push(cmd)
    } else {
        cmds
    }
}

/// The opacity a layer has after configuration with `mode`, from `current`.
pub open spec fn opacity_after(mode: CompositeAlphaMode, current: bool) -> bool {
    match mode {
        CompositeAlphaMode::Opaque => true,
        CompositeAlphaMode::PostMultiplied => false,
        CompositeAlphaMode::PreMultiplied => current,
    }
}

impl<V> SurfaceModel<V> {
    pub open spec fn is_configured(self) -> bool {
        !self.raw_swapchain_format.is_invalid()
    }

    /// Whether configuration resizes the layer to its view's bounds.
    pub open spec fn follows_view_frame(self) -> bool {
        self.profile is Touch && self.view is Some
    }

    /// The size of the surface in physical pixels.
    pub open spec fn dimensions(self) -> Extent3d {
        physical_extent_spec(self.layer.bounds, self.layer.contents_scale)
    }

    /// The layer operations that configuration performs, in order.
    pub open spec fn configure_commands(
        self,
        device: DeviceInfo,
        config: SurfaceConfiguration,
        view_bounds: Option<LogicalSize>,
    ) -> Seq<LayerCommand> {
        let alpha = config.composite_alpha_mode;
        let wants_edr = config.format.wants_edr();
        let c0 = push_if(
            Seq::empty(),
            !(alpha is PreMultiplied),
            LayerCommand::SetOpaque(alpha is Opaque),
        );
        let c1 = push_if(c0, self.follows_view_frame(), LayerCommand::SetFrame(view_bounds->0));
        let c2 = c1.push(LayerCommand::SetDevice(device.id)).push(
            LayerCommand::SetPixelFormat(config.format),
        ).push(LayerCommand::SetFramebufferOnly(config.usage.is_color_target_only())).push(
            LayerCommand::SetPresentsWithTransaction(self.present_with_transaction),
        );
        let c3 = push_if(
            c2,
            wants_edr != self.layer.wants_extended_dynamic_range_content,
            LayerCommand::SetWantsExtendedDynamicRangeContent(wants_edr),
        );
        let c4 = c3.push(LayerCommand::SetMaximumDrawableCount(config.swap_chain_size)).push(
            LayerCommand::SetDrawableSize(
                DrawableSize { width: config.extent.width, height: config.extent.height },
            ),
        );
        let c5 = push_if(
            c4,
            device.can_set_next_drawable_timeout,
            LayerCommand::SetAllowsNextDrawableTimeout(false),
        );
        push_if(
            c5,
            device.can_set_display_sync,
            LayerCommand::SetDisplaySyncEnabled(config.present_mode.display_sync_spec()),
        )
    }

    /// The layer as configuration leaves it.
    pub open spec fn configured_layer(
        self,
        device: DeviceInfo,
        config: SurfaceConfiguration,
        view_bounds: Option<LogicalSize>,
    ) -> LayerState {
        let l = self.layer;
        LayerState {
            bounds: if self.follows_view_frame() {
                view_bounds->0
            } else {
                l.bounds
            },
            contents_scale: l.contents_scale,
            opaque: opacity_after(config.composite_alpha_mode, l.opaque),
            device: Some(device.id),
            pixel_format: config.format,
            framebuffer_only: config.usage.is_color_target_only(),
            presents_with_transaction: self.present_with_transaction,
            wants_extended_dynamic_range_content: config.format.wants_edr(),
            maximum_drawable_count: config.swap_chain_size,
            drawable_size: DrawableSize { width: config.extent.width, height: config.extent.height },
            allows_next_drawable_timeout: if device.can_set_next_drawable_timeout {
                false
            } else {
                l.allows_next_drawable_timeout
            },
            display_sync_enabled: if device.can_set_display_sync {
                config.present_mode.display_sync_spec()
            } else {
                l.display_sync_enabled
            },
        }
    }

    /// The surface after configuration.
    pub open spec fn configured(
        self,
        device: DeviceInfo,
        config: SurfaceConfiguration,
        view_bounds: Option<LogicalSize>,
    ) -> SurfaceModel<V> {
        SurfaceModel {
            layer: self.configured_layer(device, config, view_bounds),
            raw_swapchain_format: config.format,
            extent: config.extent,
            ..self
        }
    }

    /// The surface after `unconfigure`: only the recorded format changes.
    pub open spec fn unconfigured(self) -> SurfaceModel<V> {
        SurfaceModel { raw_swapchain_format: PixelFormat { code: crate::config::PIXEL_FORMAT_INVALID }, ..self }
    }

    /// The description of a texture acquired from this surface.
    pub open spec fn texture_info(self) -> TextureInfo {
        TextureInfo {
            raw_format: self.raw_swapchain_format,
            raw_type: TextureType::D2,
            array_layers: 1,
            mip_levels: 1,
            copy_size: CopyExtent { width: self.extent.width, height: self.extent.height, depth: 1 },
        }
    }
}

/// A surface: the compositor layer it presents through, and the swapchain
/// configuration programmed into it.
pub struct Surface<V> {
    view: Option<V>,
    layer: LayerState,
    raw_swapchain_format: PixelFormat,
    extent: Extent3d,
    present_with_transaction: bool,
    profile: PlatformProfile,
}

impl<V> View for Surface<V> {
    type V = SurfaceModel<V>;

    closed spec fn view(&self) -> SurfaceModel<V> {
        SurfaceModel {
            view: self.view,
            layer: self.layer,
            raw_swapchain_format: self.raw_swapchain_format,
            extent: self.extent,
            present_with_transaction: self.present_with_transaction,
            profile: self.profile,
        }
    }
}

/// Appending one command to a sequence applies it after the others.
pub proof fn lemma_apply_all_push(l: LayerState, cmds: Seq<LayerCommand>, cmd: LayerCommand)
    ensures
        l.apply_all(cmds.push(cmd)) == l.apply_all(cmds).apply(cmd),
{
    crate::layer::lemma_apply_all_concat(l, cmds, seq![cmd]);
    assert(cmds.push(cmd) =~= cmds + seq![cmd]);
    let one = seq![cmd];
    assert(one.drop_first() =~= Seq::<LayerCommand>::empty());
    assert(l.apply_all(cmds).apply_all(one) == l.apply_all(cmds).apply(cmd).apply_all(
        Seq::<LayerCommand>::empty(),
    ));
}

proof fn lemma_apply_all_push_if(l: LayerState, cmds: Seq<LayerCommand>, cond: bool, cmd: LayerCommand)
    ensures
        l.apply_all(push_if(cmds, cond, cmd)) == if cond {
            l.apply_all(cmds).apply(cmd)
        } else {
            l.apply_all(cmds)
        },
{
    if cond {
        lemma_apply_all_push(l, cmds, cmd);
    }
}

/// Carrying out the commands of a configuration leaves the layer in the
/// configured state.
pub proof fn lemma_configure_commands_effect<V>(
    s: SurfaceModel<V>,
    device: DeviceInfo,
    config: SurfaceConfiguration,
    view_bounds: Option<LogicalSize>,
)
    ensures
        s.layer.apply_all(s.configure_commands(device, config, view_bounds)) == s.configured_layer(
            device,
            config,
            view_bounds,
        ),
{
    let l = s.layer;
    let alpha = config.composite_alpha_mode;
    let wants_edr = config.format.wants_edr();
    let e = Seq::<LayerCommand>::empty();
    let c0 = push_if(e, !(alpha is PreMultiplied), LayerCommand::SetOpaque(alpha is Opaque));
    lemma_apply_all_push_if(l, e, !(alpha is PreMultiplied), LayerCommand::SetOpaque(alpha is Opaque));
    let c1 = push_if(c0, s.follows_view_frame(), LayerCommand::SetFrame(view_bounds->0));
    lemma_apply_all_push_if(l, c0, s.follows_view_frame(), LayerCommand::SetFrame(view_bounds->0));
    let d1 = c1.push(LayerCommand::SetDevice(device.id));
    lemma_apply_all_push(l, c1, LayerCommand::SetDevice(device.id));
    let d2 = d1.push(LayerCommand::SetPixelFormat(config.format));
    lemma_apply_all_push(l, d1, LayerCommand::SetPixelFormat(config.format));
    let fb = LayerCommand::SetFramebufferOnly(config.usage.is_color_target_only());
    let d3 = d2.push(fb);
    lemma_apply_all_push(l, d2, fb);
    let pt = LayerCommand::SetPresentsWithTransaction(s.present_with_transaction);
    let c2 = d3.push(pt);
    lemma_apply_all_push(l, d3, pt);
    let edr_differs = wants_edr != l.wants_extended_dynamic_range_content;
    let edr = LayerCommand::SetWantsExtendedDynamicRangeContent(wants_edr);
    let c3 = push_if(c2, edr_differs, edr);
    lemma_apply_all_push_if(l, c2, edr_differs, edr);
    let mc = LayerCommand::SetMaximumDrawableCount(config.swap_chain_size);
    let d4 = c3.push(mc);
    lemma_apply_all_push(l, c3, mc);
    let ds = LayerCommand::SetDrawableSize(
        DrawableSize { width: config.extent.width, height: config.extent.height },
    );
    let c4 = d4.push(ds);
    lemma_apply_all_push(l, d4, ds);
    let nt = LayerCommand::SetAllowsNextDrawableTimeout(false);
    let c5 = push_if(c4, device.can_set_next_drawable_timeout, nt);
    lemma_apply_all_push_if(l, c4, device.can_set_next_drawable_timeout, nt);
    let dsync = LayerCommand::SetDisplaySyncEnabled(config.present_mode.display_sync_spec());
    lemma_apply_all_push_if(l, c5, device.can_set_display_sync, dsync);
    assert(l.apply_all(e) == l);
    assert(s.configure_commands(device, config, view_bounds) == push_if(c5, device.can_set_display_sync, dsync));
}

fn push_when(cmds: &mut Vec<LayerCommand>, cond: bool, cmd: LayerCommand)
    ensures
        final(cmds)@ == push_if(old(cmds)@, cond, cmd),
{
    if cond {
        cmds.push(cmd);
    }
}

impl<V> Surface<V> {
    fn new(view: Option<V>, layer: LayerState, profile: PlatformProfile) -> (r: Surface<V>)
        ensures
            r@.view == view,
            r@.layer == layer,
            r@.raw_swapchain_format.is_invalid(),
            r@.extent == (Extent3d { width: 1, height: 1, depth_or_array_layers: 1 }),
            !r@.present_with_transaction,
            r@.profile == profile,
    {
        Surface {
            view,
            layer,
            raw_swapchain_format: PixelFormat::invalid(),
            extent: Extent3d::unit(),
            present_with_transaction: false,
            profile,
        }
    }

    /// A surface that presents through `layer`, the layer of `view` or one made
    /// for it, and holds on to the view until it is disposed of.
    pub fn from_view(view: V, layer: LayerState, profile: PlatformProfile) -> (r: Surface<V>)
        ensures
            r@.view == Some(view),
            r@.layer == layer,
            !r@.is_configured(),
            r@.extent == (Extent3d { width: 1, height: 1, depth_or_array_layers: 1 }),
            !r@.present_with_transaction,
            r@.profile == profile,
    {
        Self::new(Some(view), layer, profile)
    }

    /// A surface that presents through a layer given directly, with no view.
    pub fn from_layer(layer: LayerState, profile: PlatformProfile) -> (r: Surface<V>)
        ensures
            r@.view is None,
            r@.layer == layer,
            !r@.is_configured(),
            r@.extent == (Extent3d { width: 1, height: 1, depth_or_array_layers: 1 }),
            !r@.present_with_transaction,
            r@.profile == profile,
    {
        Self::new(None, layer, profile)
    }

    /// Ends the surface and hands back the view it held, for release.
    pub fn dispose(self) -> (r: Option<V>)
        ensures
            r == self@.view,
    {
        self.view
    }

    pub fn is_configured(&self) -> (r: bool)
        ensures
            r == self@.is_configured(),
    {
        self.raw_swapchain_format.code != crate::config::PIXEL_FORMAT_INVALID
    }

    /// Whether [`Surface::configure`] needs the current bounds of the view's layer.
    pub fn follows_view_frame(&self) -> (r: bool)
        ensures
            r == self@.follows_view_frame(),
    {
        matches!(self.profile, PlatformProfile::Touch) && self.view.is_some()
    }

    /// The view the surface was made from, if any.
    pub fn view_handle(&self) -> (r: Option<&V>)
        ensures
            r is Some <==> self@.view is Some,
            r matches Some(v) ==> *v == self@.view->0,
    {
        match &self.view {
            Some(v) => Some(v),
            None => None,
        }
    }

    /// The layer as this surface last programmed or observed it.
    pub fn layer(&self) -> (r: LayerState)
        ensures
            r == self@.layer,
    {
        self.layer
    }

    pub fn raw_swapchain_format(&self) -> (r: PixelFormat)
        ensures
            r == self@.raw_swapchain_format,
    {
        self.raw_swapchain_format
    }

    pub fn extent(&self) -> (r: Extent3d)
        ensures
            r == self@.extent,
    {
        self.extent
    }

    pub fn present_with_transaction(&self) -> (r: bool)
        ensures
            r == self@.present_with_transaction,
    {
        self.present_with_transaction
    }

    /// Records the bounds and contents scale just read from the layer.
    pub fn observe_geometry(&mut self, bounds: LogicalSize, contents_scale: Fixed)
        ensures
            final(self)@ == (SurfaceModel {
                layer: LayerState { bounds, contents_scale, ..old(self)@.layer },
                ..old(self)@
            }),
    {
        self.layer.bounds = bounds;
        self.layer.contents_scale = contents_scale;
    }

    /// The size of the surface in physical pixels: the layer's bounds times its
    /// contents scale, rounded down, with depth 1.
    pub fn dimensions(&self) -> (r: Extent3d)
        ensures
            r == self@.dimensions(),
    {
        physical_extent(self.layer.bounds, self.layer.contents_scale)
    }

    /// Programs the swapchain configuration into the layer.
    ///
    /// Returns the layer operations to carry out, in order; the surface's record
    /// of the layer already holds their effect. `view_bounds` is the current
    /// bounds of the view's own layer, needed only where the layer follows the
    /// view's frame.
    pub fn configure(
        &mut self,
        device: &DeviceInfo,
        config: &SurfaceConfiguration,
        view_bounds: Option<LogicalSize>,
    ) -> (r: Vec<LayerCommand>)
        requires
            old(self)@.follows_view_frame() ==> view_bounds is Some,
        ensures
            r@ == old(self)@.configure_commands(*device, *config, view_bounds),
            final(self)@ == old(self)@.configured(*device, *config, view_bounds),
            final(self)@.layer == old(self)@.layer.apply_all(r@),
            final(self)@.layer.opaque == opacity_after(config.composite_alpha_mode, old(self)@.layer.opaque),
            final(self)@.raw_swapchain_format == config.format,
            final(self)@.extent == config.extent,
    {
        self.raw_swapchain_format = config.format;
        self.extent = config.extent;
        let alpha = config.composite_alpha_mode;
        let wants_edr = config.format.is_rgba16_float();
        let mut cmds: Vec<LayerCommand> = Vec::new();
        push_when(
            &mut cmds,
            !matches!(alpha, CompositeAlphaMode::PreMultiplied),
            LayerCommand::SetOpaque(matches!(alpha, CompositeAlphaMode::Opaque)),
        );
        if self.follows_view_frame() {
            match view_bounds {
                Some(b) => cmds.push(LayerCommand::SetFrame(b)),
                None => {},
            }
        }
        cmds.push(LayerCommand::SetDevice(device.id));
        cmds.push(LayerCommand::SetPixelFormat(config.format));
        cmds.push(LayerCommand::SetFramebufferOnly(config.usage.color_target_only()));
        cmds.push(LayerCommand::SetPresentsWithTransaction(self.present_with_transaction));
        push_when(
            &mut cmds,
            wants_edr != self.layer.wants_extended_dynamic_range_content,
            LayerCommand::SetWantsExtendedDynamicRangeContent(wants_edr),
        );
        cmds.push(LayerCommand::SetMaximumDrawableCount(config.swap_chain_size));
        cmds.push(
            LayerCommand::SetDrawableSize(
                DrawableSize { width: config.extent.width, height: config.extent.height },
            ),
        );
        push_when(
            &mut cmds,
            device.can_set_next_drawable_timeout,
            LayerCommand::SetAllowsNextDrawableTimeout(false),
        );
        push_when(
            &mut cmds,
            device.can_set_display_sync,
            LayerCommand::SetDisplaySyncEnabled(config.present_mode.display_sync()),
        );
        proof {
            lemma_configure_commands_effect(old(self)@, *device, *config, view_bounds);
        }
        self.layer.apply_commands(&cmds);
        cmds
    }

    /// Returns the surface to the unconfigured state. The layer keeps what was
    /// programmed into it.
    pub fn unconfigure(&mut self)
        ensures
            final(self)@ == old(self)@.unconfigured(),
            final(self)@.raw_swapchain_format.is_invalid(),
    {
        self.raw_swapchain_format = PixelFormat::invalid();
    }

    /// Wraps the drawable that the compositor handed out, if any.
    ///
    /// `next` is what the layer's blocking request for its next drawable
    /// returned. No drawable gives `None`, which is no fault: the caller may
    /// retry or skip a frame. The timeout is accepted and has no effect:
    /// acquisition waits as long as the compositor makes it wait.
    pub fn acquire_texture<D>(&mut self, _timeout_ms: u32, next: Option<D>) -> (r: Option<AcquiredSurfaceTexture<D>>)
        requires
            old(self)@.is_configured(),
        ensures
            final(self)@ == old(self)@,
            next is None <==> r is None,
            next matches Some(d) ==> r matches Some(a) && a.texture.drawable == d
                && a.texture.texture == old(self)@.texture_info()
                && a.texture.present_with_transaction == old(self)@.present_with_transaction
                && !a.suboptimal,
    {
        match next {
            None => None,
            Some(drawable) => {
                let texture = TextureInfo {
                    raw_format: self.raw_swapchain_format,
                    raw_type: TextureType::D2,
                    array_layers: 1,
                    mip_levels: 1,
                    copy_size: CopyExtent { width: self.extent.width, height: self.extent.height, depth: 1 },
                };
                Some(AcquiredSurfaceTexture {
                    texture: SurfaceTexture {
                        texture,
                        drawable,
                        present_with_transaction: self.present_with_transaction,
                    },
                    suboptimal: false,
                })
            },
        }
    }

    /// Takes back a texture that will not be presented. Nothing is to be
    /// reclaimed: the drawable and its texture release themselves when dropped.
    pub fn discard_texture<D>(&mut self, texture: SurfaceTexture<D>)
        ensures
            final(self)@ == old(self)@,
    {
        let _ = texture;
    }
}

} // verus!
