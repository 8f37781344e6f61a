use metal_surface::{
    physical_extent, plan_view_layer, should_inherit_contents_scale_from_window, CompositeAlphaMode,
    CopyExtent, DelegateRegistry, DeviceInfo, DrawableSize, Extent3d, Fixed, LayerCommand,
    LayerSetup, LayerState, LogicalSize, PixelFormat, PlatformProfile, PresentMode, Surface,
    SurfaceConfiguration, TextureType, TextureUses, FIXED_ONE, PIXEL_FORMAT_RGBA16_FLOAT,
    TEXTURE_USES_COLOR_TARGET,
};

const BGRA8_UNORM: u64 = 80;

fn units(n: u32) -> Fixed {
    Fixed { raw: n * FIXED_ONE }
}

fn size(w: u32, h: u32) -> LogicalSize {
    LogicalSize { width: units(w), height: units(h) }
}

fn layer(w: u32, h: u32, scale: u32) -> LayerState {
    LayerState {
        bounds: size(w, h),
        contents_scale: units(scale),
        opaque: false,
        device: None,
        pixel_format: PixelFormat { code: BGRA8_UNORM },
        framebuffer_only: true,
        presents_with_transaction: false,
        wants_extended_dynamic_range_content: false,
        maximum_drawable_count: 3,
        drawable_size: DrawableSize { width: 0, height: 0 },
        allows_next_drawable_timeout: true,
        display_sync_enabled: true,
    }
}

fn device(timeout: bool, sync: bool) -> DeviceInfo {
    DeviceInfo { id: 7, can_set_next_drawable_timeout: timeout, can_set_display_sync: sync }
}

fn config(format: u64, alpha: CompositeAlphaMode, mode: PresentMode, w: u32, h: u32) -> SurfaceConfiguration {
    SurfaceConfiguration {
        swap_chain_size: 3,
        present_mode: mode,
        composite_alpha_mode: alpha,
        format: PixelFormat { code: format },
        extent: Extent3d { width: w, height: h, depth_or_array_layers: 1 },
        usage: TextureUses { bits: TEXTURE_USES_COLOR_TARGET },
    }
}

#[test]
fn end_to_end_from_layer() {
    let mut s: Surface<()> = Surface::from_layer(layer(800, 600, 2), PlatformProfile::Desktop);
    assert_eq!(s.dimensions(), Extent3d { width: 1600, height: 1200, depth_or_array_layers: 1 });
    let cfg = config(BGRA8_UNORM, CompositeAlphaMode::Opaque, PresentMode::Fifo, 1600, 1200);
    s.configure(&device(true, true), &cfg, None);
    let acquired = s.acquire_texture(0, Some(42u32)).expect("a drawable was handed out");
    let tex = acquired.texture.texture;
    assert_eq!(tex.raw_format, PixelFormat { code: BGRA8_UNORM });
    assert_eq!(tex.copy_size, CopyExtent { width: 1600, height: 1200, depth: 1 });
    assert_eq!(tex.raw_type, TextureType::D2);
    assert_eq!(tex.mip_levels, 1);
    assert_eq!(tex.array_layers, 1);
    assert_eq!(acquired.texture.drawable, 42);
    assert!(!acquired.suboptimal);
    assert!(!acquired.texture.present_with_transaction);
}

#[test]
fn acquire_without_drawable_is_none() {
    let mut s: Surface<()> = Surface::from_layer(layer(800, 600, 2), PlatformProfile::Desktop);
    let cfg = config(BGRA8_UNORM, CompositeAlphaMode::Opaque, PresentMode::Fifo, 1600, 1200);
    s.configure(&device(true, true), &cfg, None);
    assert!(s.acquire_texture::<u32>(0, None).is_none());
    assert!(s.is_configured());
}

#[test]
fn composite_alpha_sets_opacity() {
    let mut s: Surface<()> = Surface::from_layer(layer(10, 10, 1), PlatformProfile::Desktop);
    assert!(!s.layer().opaque);
    let d = device(false, false);
    s.configure(&d, &config(BGRA8_UNORM, CompositeAlphaMode::Opaque, PresentMode::Fifo, 10, 10), None);
    assert!(s.layer().opaque);
    let cmds = s.configure(&d, &config(BGRA8_UNORM, CompositeAlphaMode::PreMultiplied, PresentMode::Fifo, 10, 10), None);
    assert!(s.layer().opaque);
    assert!(!cmds.iter().any(|c| matches!(c, LayerCommand::SetOpaque(_))));
    let cmds = s.configure(&d, &config(BGRA8_UNORM, CompositeAlphaMode::PostMultiplied, PresentMode::Fifo, 10, 10), None);
    assert!(!s.layer().opaque);
    assert_eq!(cmds[0], LayerCommand::SetOpaque(false));
}

#[test]
fn configure_commands_in_order() {
    let mut s: Surface<()> = Surface::from_layer(layer(800, 600, 2), PlatformProfile::Desktop);
    let cfg = config(PIXEL_FORMAT_RGBA16_FLOAT, CompositeAlphaMode::Opaque, PresentMode::Immediate, 1600, 1200);
    let cmds = s.configure(&device(true, true), &cfg, None);
    let fmt = PixelFormat { code: PIXEL_FORMAT_RGBA16_FLOAT };
    assert_eq!(
        cmds,
        vec![
            LayerCommand::SetOpaque(true),
            LayerCommand::SetDevice(7),
            LayerCommand::SetPixelFormat(fmt),
            LayerCommand::SetFramebufferOnly(true),
            LayerCommand::SetPresentsWithTransaction(false),
            LayerCommand::SetWantsExtendedDynamicRangeContent(true),
            LayerCommand::SetMaximumDrawableCount(3),
            LayerCommand::SetDrawableSize(DrawableSize { width: 1600, height: 1200 }),
            LayerCommand::SetAllowsNextDrawableTimeout(false),
            LayerCommand::SetDisplaySyncEnabled(false),
        ]
    );
    let l = s.layer();
    assert!(l.wants_extended_dynamic_range_content);
    assert!(!l.display_sync_enabled);
    assert!(!l.allows_next_drawable_timeout);
    assert_eq!(l.device, Some(7));
    assert_eq!(s.raw_swapchain_format(), fmt);
    assert_eq!(s.extent(), Extent3d { width: 1600, height: 1200, depth_or_array_layers: 1 });
}

#[test]
fn configure_without_capabilities_leaves_toggles() {
    let mut s: Surface<()> = Surface::from_layer(layer(8, 8, 1), PlatformProfile::Desktop);
    let mut cfg = config(BGRA8_UNORM, CompositeAlphaMode::PreMultiplied, PresentMode::Immediate, 8, 8);
    cfg.usage = TextureUses { bits: TEXTURE_USES_COLOR_TARGET | 0x1 };
    let cmds = s.configure(&device(false, false), &cfg, None);
    assert_eq!(cmds.len(), 6);
    let l = s.layer();
    assert!(l.display_sync_enabled);
    assert!(l.allows_next_drawable_timeout);
    assert!(!l.framebuffer_only);
}

#[test]
fn configure_twice_is_idempotent() {
    let mut s: Surface<()> = Surface::from_layer(layer(800, 600, 2), PlatformProfile::Desktop);
    let d = device(true, true);
    let cfg = config(PIXEL_FORMAT_RGBA16_FLOAT, CompositeAlphaMode::Opaque, PresentMode::Fifo, 1600, 1200);
    let first = s.configure(&d, &cfg, None);
    assert!(first.contains(&LayerCommand::SetWantsExtendedDynamicRangeContent(true)));
    let after_first = s.layer();
    let second = s.configure(&d, &cfg, None);
    assert_eq!(s.layer(), after_first);
    assert!(!second
        .iter()
        .any(|c| matches!(c, LayerCommand::SetWantsExtendedDynamicRangeContent(_))));
    let mut replay = after_first;
    for c in &second {
        replay.apply_command(*c);
    }
    assert_eq!(replay, after_first);
}

#[test]
fn unconfigure_resets_format_and_reconfigure_reprograms() {
    let mut s: Surface<()> = Surface::from_layer(layer(800, 600, 2), PlatformProfile::Desktop);
    let d = device(true, true);
    let hdr = config(PIXEL_FORMAT_RGBA16_FLOAT, CompositeAlphaMode::Opaque, PresentMode::Fifo, 1600, 1200);
    s.configure(&d, &hdr, None);
    let dims = s.dimensions();
    s.unconfigure();
    assert!(!s.is_configured());
    assert_eq!(s.raw_swapchain_format(), PixelFormat::invalid());
    assert!(s.layer().wants_extended_dynamic_range_content);
    assert_eq!(s.dimensions(), dims);
    let sdr = config(BGRA8_UNORM, CompositeAlphaMode::Opaque, PresentMode::Fifo, 1600, 1200);
    let cmds = s.configure(&d, &sdr, None);
    assert!(cmds.contains(&LayerCommand::SetPixelFormat(PixelFormat { code: BGRA8_UNORM })));
    assert!(cmds.contains(&LayerCommand::SetWantsExtendedDynamicRangeContent(false)));
    assert!(!s.layer().wants_extended_dynamic_range_content);
    assert!(s.is_configured());
}

#[test]
fn dimensions_do_not_depend_on_configure_history() {
    let d = device(true, true);
    let mut fresh: Surface<()> = Surface::from_layer(layer(800, 600, 2), PlatformProfile::Desktop);
    let mut used: Surface<()> = Surface::from_layer(layer(800, 600, 2), PlatformProfile::Desktop);
    for w in [100u32, 640, 3000] {
        used.configure(&d, &config(BGRA8_UNORM, CompositeAlphaMode::Opaque, PresentMode::Mailbox, w, w), None);
    }
    let cfg = config(BGRA8_UNORM, CompositeAlphaMode::Opaque, PresentMode::Fifo, 1600, 1200);
    fresh.configure(&d, &cfg, None);
    used.configure(&d, &cfg, None);
    assert_eq!(fresh.dimensions(), used.dimensions());
    assert_eq!(used.dimensions(), Extent3d { width: 1600, height: 1200, depth_or_array_layers: 1 });
    assert_eq!(used.layer().drawable_size, DrawableSize { width: 1600, height: 1200 });
}

#[test]
fn touch_layer_follows_view_frame() {
    let mut s: Surface<u8> = Surface::from_view(5u8, layer(10, 10, 3), PlatformProfile::Touch);
    assert!(s.follows_view_frame());
    let cfg = config(BGRA8_UNORM, CompositeAlphaMode::PreMultiplied, PresentMode::Fifo, 1170, 2532);
    let cmds = s.configure(&device(false, false), &cfg, Some(size(390, 844)));
    assert_eq!(cmds[0], LayerCommand::SetFrame(size(390, 844)));
    assert_eq!(s.dimensions(), Extent3d { width: 1170, height: 2532, depth_or_array_layers: 1 });
    assert_eq!(s.dispose(), Some(5u8));
}

#[test]
fn desktop_view_layer_keeps_frame() {
    let mut s: Surface<u8> = Surface::from_view(5u8, layer(10, 10, 1), PlatformProfile::Desktop);
    assert!(!s.follows_view_frame());
    let cfg = config(BGRA8_UNORM, CompositeAlphaMode::PreMultiplied, PresentMode::Fifo, 10, 10);
    let cmds = s.configure(&device(false, false), &cfg, Some(size(50, 50)));
    assert!(!cmds.iter().any(|c| matches!(c, LayerCommand::SetFrame(_))));
    assert_eq!(s.layer().bounds, size(10, 10));
}

#[test]
fn dispose_from_layer_has_no_view() {
    let s: Surface<u8> = Surface::from_layer(layer(1, 1, 1), PlatformProfile::Desktop);
    assert_eq!(s.dispose(), None);
}

#[test]
fn new_surface_is_unconfigured() {
    let s: Surface<()> = Surface::from_layer(layer(1, 1, 1), PlatformProfile::Touch);
    assert!(!s.is_configured());
    assert_eq!(s.extent(), Extent3d { width: 1, height: 1, depth_or_array_layers: 1 });
    assert!(!s.present_with_transaction());
    assert!(!s.follows_view_frame());
}

#[test]
fn physical_extent_rounds_down() {
    let bounds = LogicalSize {
        width: Fixed { raw: 100 * FIXED_ONE + FIXED_ONE / 2 },
        height: Fixed { raw: 33 * FIXED_ONE + FIXED_ONE / 4 },
    };
    assert_eq!(
        physical_extent(bounds, units(3)),
        Extent3d { width: 301, height: 99, depth_or_array_layers: 1 }
    );
    assert_eq!(
        physical_extent(size(0, 0), units(2)),
        Extent3d { width: 0, height: 0, depth_or_array_layers: 1 }
    );
    let max = Fixed { raw: u32::MAX };
    assert_eq!(
        physical_extent(LogicalSize { width: max, height: max }, max),
        Extent3d { width: 4294967294, height: 4294967294, depth_or_array_layers: 1 }
    );
}

#[test]
fn observed_geometry_changes_dimensions() {
    let mut s: Surface<()> = Surface::from_layer(layer(800, 600, 2), PlatformProfile::Desktop);
    s.observe_geometry(size(1024, 768), units(1));
    assert_eq!(s.dimensions(), Extent3d { width: 1024, height: 768, depth_or_array_layers: 1 });
}

#[test]
fn fixed_from_units() {
    assert_eq!(Fixed::from_units(2), Fixed { raw: 131072 });
}

#[test]
fn delegate_registered_once() {
    let mut reg = DelegateRegistry::new();
    let first = reg.grant(11);
    assert!(first.register);
    assert_eq!(first.hook, 11);
    for candidate in [12u64, 11, 99] {
        let g = reg.grant(candidate);
        assert!(!g.register);
        assert_eq!(g.hook, 11);
    }
}

#[test]
fn delegate_never_inherits_window_scale() {
    assert!(!should_inherit_contents_scale_from_window());
}

#[test]
fn view_layer_plans() {
    let bounds = size(800, 600);
    assert_eq!(
        plan_view_layer(PlatformProfile::Desktop, true, bounds, Some(units(2)), true),
        LayerSetup::AdoptMainLayer
    );
    match plan_view_layer(PlatformProfile::Desktop, false, bounds, Some(units(2)), true) {
        LayerSetup::CreateSublayer(p) => {
            assert_eq!(p.frame, bounds);
            assert!(p.contents_gravity_top_left);
            assert_eq!(p.contents_scale, Some(units(2)));
            assert_eq!(p.view_content_scale_factor, None);
            assert!(p.attach_delegate);
        }
        LayerSetup::AdoptMainLayer => panic!("a sublayer is needed"),
    }
    match plan_view_layer(PlatformProfile::Touch, false, bounds, Some(units(3)), false) {
        LayerSetup::CreateSublayer(p) => {
            assert!(!p.contents_gravity_top_left);
            assert_eq!(p.contents_scale, None);
            assert_eq!(p.view_content_scale_factor, Some(units(3)));
            assert!(!p.attach_delegate);
        }
        LayerSetup::AdoptMainLayer => panic!("a sublayer is needed"),
    }
}

#[test]
fn present_mode_display_sync() {
    assert!(!PresentMode::Immediate.display_sync());
    assert!(PresentMode::Fifo.display_sync());
    assert!(PresentMode::Mailbox.display_sync());
    assert!(PresentMode::AutoNoVsync.display_sync());
}

#[test]
fn view_getter_returns_view() {
    let s: Surface<u8> = Surface::from_view(9u8, layer(1, 1, 1), PlatformProfile::Desktop);
    assert_eq!(s.view_handle(), Some(&9u8));
    let t: Surface<u8> = Surface::from_layer(layer(1, 1, 1), PlatformProfile::Desktop);
    assert_eq!(t.view_handle(), None);
}
