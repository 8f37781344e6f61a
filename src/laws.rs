use vstd::prelude::*;

use crate::config::{DeviceInfo, SurfaceConfiguration};
use crate::geometry::{physical_extent_spec, CopyExtent, LogicalSize};
use crate::layer::{DrawableSize, LayerCommand};
use crate::surface::{push_if, SurfaceModel};

verus! {

/// The surface after a sequence of configurations, each with its device.
pub open spec fn configure_each<V>(
    s: SurfaceModel<V>,
    history: Seq<(DeviceInfo, SurfaceConfiguration)>,
    view_bounds: Option<LogicalSize>,
) -> SurfaceModel<V>
    decreases history.len(),
{
    if history.len() == 0 {
        s
    } else {
        configure_each(s.configured(history[0].0, history[0].1, view_bounds), history.drop_first(), view_bounds)
    }
}

proof fn lemma_configure_each_keeps_geometry<V>(
    s: SurfaceModel<V>,
    history: Seq<(DeviceInfo, SurfaceConfiguration)>,
    view_bounds: Option<LogicalSize>,
)
    ensures
        configure_each(s, history, view_bounds).view == s.view,
        configure_each(s, history, view_bounds).profile == s.profile,
        configure_each(s, history, view_bounds).present_with_transaction == s.present_with_transaction,
        configure_each(s, history, view_bounds).layer.contents_scale == s.layer.contents_scale,
        !s.follows_view_frame() ==> configure_each(s, history, view_bounds).layer.bounds == s.layer.bounds,
    decreases history.len(),
{
    if history.len() > 0 {
        lemma_configure_each_keeps_geometry(
            s.configured(history[0].0, history[0].1, view_bounds),
            history.drop_first(),
            view_bounds,
        );
    }
}

/// Right after a configuration with extent `E`, whatever configurations came
/// before it, the surface's dimensions are those of its layer's bounds (the
/// view's bounds where the layer follows the view's frame) times the layer's
/// unchanged contents scale, and its drawables and textures are sized `E`.
pub proof fn lemma_dimensions_after_configure<V>(
    s: SurfaceModel<V>,
    history: Seq<(DeviceInfo, SurfaceConfiguration)>,
    device: DeviceInfo,
    config: SurfaceConfiguration,
    view_bounds: Option<LogicalSize>,
)
    requires
        s.follows_view_frame() ==> view_bounds is Some,
    ensures
        ({
            let t = configure_each(s, history, view_bounds).configured(device, config, view_bounds);
            &&& t.dimensions() == s.configured(device, config, view_bounds).dimensions()
            &&& t.dimensions() == physical_extent_spec(
                if s.follows_view_frame() {
                    view_bounds->0
                } else {
                    s.layer.bounds
                },
                s.layer.contents_scale,
            )
            &&& t.extent == config.extent
            &&& t.layer.drawable_size == (DrawableSize {
                width: config.extent.width,
                height: config.extent.height,
            })
            &&& t.texture_info().copy_size == (CopyExtent {
                width: config.extent.width,
                height: config.extent.height,
                depth: 1,
            })
        }),
{
    lemma_configure_each_keeps_geometry(s, history, view_bounds);
}

/// Configuring twice with the same inputs leaves the surface as the first
/// configuration left it: the second run carries out no change of the layer
/// and toggles no extended dynamic range.
pub proof fn lemma_configure_idempotent<V>(
    s: SurfaceModel<V>,
    device: DeviceInfo,
    config: SurfaceConfiguration,
    view_bounds: Option<LogicalSize>,
)
    requires
        s.follows_view_frame() ==> view_bounds is Some,
    ensures
        ({
            let once = s.configured(device, config, view_bounds);
            let again = once.configure_commands(device, config, view_bounds);
            &&& once.configured(device, config, view_bounds) == once
            &&& once.layer.apply_all(again) == once.layer
            &&& forall|i: int|
                0 <= i < again.len() ==> !(#[trigger] again[i] is SetWantsExtendedDynamicRangeContent)
        }),
{
    let once = s.configured(device, config, view_bounds);
    crate::surface::lemma_configure_commands_effect(once, device, config, view_bounds);
    let again = once.configure_commands(device, config, view_bounds);
    assert(once.configured_layer(device, config, view_bounds) == once.layer);
    assert forall|i: int| 0 <= i < again.len() implies !(#[trigger] again[i] is SetWantsExtendedDynamicRangeContent) by {
        assert(again[i] != LayerCommand::SetWantsExtendedDynamicRangeContent(true));
        assert(again[i] != LayerCommand::SetWantsExtendedDynamicRangeContent(false));
    }
}

/// After `unconfigure` the surface records the invalid format and keeps its
/// layer; configuring it again programs the format and its extended dynamic
/// range state anew, with the same outcome as configuring without the reset.
pub proof fn lemma_reconfigure_after_unconfigure<V>(
    s: SurfaceModel<V>,
    device: DeviceInfo,
    config: SurfaceConfiguration,
    view_bounds: Option<LogicalSize>,
)
    requires
        s.follows_view_frame() ==> view_bounds is Some,
    ensures
        ({
            let u = s.unconfigured();
            let cmds = u.configure_commands(device, config, view_bounds);
            let t = u.configured(device, config, view_bounds);
            &&& u.raw_swapchain_format.is_invalid()
            &&& !u.is_configured()
            &&& u.layer == s.layer
            &&& u.dimensions() == s.dimensions()
            &&& cmds.contains(LayerCommand::SetPixelFormat(config.format))
            &&& (s.layer.wants_extended_dynamic_range_content != config.format.wants_edr()
                ==> cmds.contains(LayerCommand::SetWantsExtendedDynamicRangeContent(config.format.wants_edr())))
            &&& t == s.configured(device, config, view_bounds)
            &&& t.is_configured() == !config.format.is_invalid()
            &&& t.layer.pixel_format == config.format
            &&& t.layer.wants_extended_dynamic_range_content == config.format.wants_edr()
        }),
{
    let u = s.unconfigured();
    let cmds = u.configure_commands(device, config, view_bounds);
    let fmt = LayerCommand::SetPixelFormat(config.format);
    let edr = LayerCommand::SetWantsExtendedDynamicRangeContent(config.format.wants_edr());
    let alpha = config.composite_alpha_mode;
    let c0 = push_if(Seq::empty(), !(alpha is PreMultiplied), LayerCommand::SetOpaque(alpha is Opaque));
    let c1 = push_if(c0, u.follows_view_frame(), LayerCommand::SetFrame(view_bounds->0));
    let d1 = c1.push(LayerCommand::SetDevice(device.id));
    let d2 = d1.push(fmt);
    let c2 = d2.push(LayerCommand::SetFramebufferOnly(config.usage.is_color_target_only())).push(
        LayerCommand::SetPresentsWithTransaction(u.present_with_transaction),
    );
    let edr_differs = config.format.wants_edr() != u.layer.wants_extended_dynamic_range_content;
    let c3 = push_if(c2, edr_differs, edr);
    assert(cmds.len() >= c3.len());
    assert(cmds.subrange(0, c3.len() as int) =~= c3);
    assert(c3[c1.len() as int + 1] == fmt);
    assert(cmds[c1.len() as int + 1] == fmt);
    if edr_differs {
        assert(cmds[c2.len() as int] == edr);
    }
}

} // verus!
