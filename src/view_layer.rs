use vstd::prelude::*;

use crate::geometry::{Fixed, LogicalSize};
use crate::surface::PlatformProfile;

verus! {

/// How to set up a layer made for a view whose own layer cannot present.
#[derive(Clone, Copy, Debug, PartialEq, Eq, Structural)]
pub struct SublayerSetup {
    /// The new layer's frame: the bounds of the view's layer, which becomes its
    /// parent.
    pub frame: LogicalSize,
    /// Pin the contents of the parent and the new layer to the top left.
    pub contents_gravity_top_left: bool,
    /// Contents scale to give the new layer.
    pub contents_scale: Option<Fixed>,
    /// Content scale factor to give the view.
    pub view_content_scale_factor: Option<Fixed>,
    /// Attach the delegate hook to the new layer.
    pub attach_delegate: bool,
}

/// Where a surface made from a view gets its layer.
#[derive(Clone, Copy, Debug, PartialEq, Eq, Structural)]
pub enum LayerSetup {
    /// The view's own layer can present: use it as it is.
    AdoptMainLayer,
    /// Make a new layer and add it as a child of the view's layer, which stays
    /// in place.
    CreateSublayer(SublayerSetup),
}

/// The layer setup for a view.
///
/// `platform_scale` is, on a touch platform, the main screen's native scale;
/// on a desktop platform, the backing scale factor of the view's window, if it
/// has one.
pub open spec fn view_layer_setup(
    profile: PlatformProfile,
    main_layer_can_present: bool,
    parent_bounds: LogicalSize,
    platform_scale: Option<Fixed>,
    has_delegate: bool,
) -> LayerSetup {
    if main_layer_can_present {
        LayerSetup::AdoptMainLayer
    } else {
        LayerSetup::CreateSublayer(
            SublayerSetup {
                frame: parent_bounds,
                contents_gravity_top_left: profile is Desktop,
                contents_scale: if profile is Desktop {
                    platform_scale
                } else {
                    None
                },
                view_content_scale_factor: if profile is Touch {
                    platform_scale
                } else {
                    None
                },
                attach_delegate: has_delegate,
            },
        )
    }
}

/// Decides how a surface made from a view gets its layer: the view's own when
/// it can present, otherwise a new child layer set up for the platform.
pub fn plan_view_layer(
    profile: PlatformProfile,
    main_layer_can_present: bool,
    parent_bounds: LogicalSize,
    platform_scale: Option<Fixed>,
    has_delegate: bool,
) -> (r: LayerSetup)
    ensures
        r == view_layer_setup(profile, main_layer_can_present, parent_bounds, platform_scale, has_delegate),
{
    if main_layer_can_present {
        return LayerSetup::AdoptMainLayer;
    }
    let desktop = matches!(profile, PlatformProfile::Desktop);
    LayerSetup::CreateSublayer(
        SublayerSetup {
            frame: parent_bounds,
            contents_gravity_top_left: desktop,
            contents_scale: if desktop {
                platform_scale
            } else {
                None
            },
            view_content_scale_factor: if desktop {
                None
            } else {
                platform_scale
            },
            attach_delegate: has_delegate,
        },
    )
}

} // verus!
