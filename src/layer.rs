use vstd::prelude::*;

use crate::config::PixelFormat;
use crate::geometry::{Fixed, LogicalSize};

verus! {

/// Size of the drawables a layer hands out, in pixels.
#[derive(Clone, Copy, Debug, PartialEq, Eq, Structural)]
pub struct DrawableSize {
    pub width: u32,
    pub height: u32,
}

/// The observable properties of a compositor layer that a surface reads or
/// programs.
#[derive(Clone, Copy, Debug, PartialEq, Eq, Structural)]
pub struct LayerState {
    pub bounds: LogicalSize,
    pub contents_scale: Fixed,
    pub opaque: bool,
    /// The device the layer is bound to, if any.
    pub device: Option<u64>,
    pub pixel_format: PixelFormat,
    pub framebuffer_only: bool,
    pub presents_with_transaction: bool,
    pub wants_extended_dynamic_range_content: bool,
    pub maximum_drawable_count: u32,
    pub drawable_size: DrawableSize,
    pub allows_next_drawable_timeout: bool,
    pub display_sync_enabled: bool,
}

/// One operation on a compositor layer.
#[derive(Clone, Copy, Debug, PartialEq, Eq, Structural)]
pub enum LayerCommand {
    SetOpaque(bool),
    /// Resize the layer's frame; its bounds take the given size.
    SetFrame(LogicalSize),
    SetDevice(u64),
    SetPixelFormat(PixelFormat),
    SetFramebufferOnly(bool),
    SetPresentsWithTransaction(bool),
    SetWantsExtendedDynamicRangeContent(bool),
    SetMaximumDrawableCount(u32),
    SetDrawableSize(DrawableSize),
    SetAllowsNextDrawableTimeout(bool),
    SetDisplaySyncEnabled(bool),
}

impl LayerState {
    /// The layer after one command.
    pub open spec fn apply(self, cmd: LayerCommand) -> LayerState {
        match cmd {
            LayerCommand::SetOpaque(v) => LayerState { opaque: v, ..self },
            LayerCommand::SetFrame(size) => LayerState { bounds: size, ..self },
            LayerCommand::SetDevice(id) => LayerState { device: Some(id), ..self },
            LayerCommand::SetPixelFormat(f) => LayerState { pixel_format: f, ..self },
            LayerCommand::SetFramebufferOnly(v) => LayerState { framebuffer_only: v, ..self },
            LayerCommand::SetPresentsWithTransaction(v) => LayerState {
                presents_with_transaction: v,
                ..self
            },
            LayerCommand::SetWantsExtendedDynamicRangeContent(v) => LayerState {
                wants_extended_dynamic_range_content: v,
                ..self
            },
            LayerCommand::SetMaximumDrawableCount(n) => LayerState {
                maximum_drawable_count: n,
                ..self
            },
            LayerCommand::SetDrawableSize(s) => LayerState { drawable_size: s, ..self },
            LayerCommand::SetAllowsNextDrawableTimeout(v) => LayerState {
                allows_next_drawable_timeout: v,
                ..self
            },
            LayerCommand::SetDisplaySyncEnabled(v) => LayerState {
                display_sync_enabled: v,
                ..self
            },
        }
    }

    /// The layer after a sequence of commands, carried out in order.
    pub open spec fn apply_all(self, cmds: Seq<LayerCommand>) -> LayerState
        decreases cmds.len(),
    {
        if cmds.len() == 0 {
            self
        } else {
            self.apply(cmds[0]).apply_all(cmds.drop_first())
        }
    }

    /// Records the effect of one command.
    pub fn apply_command(&mut self, cmd: LayerCommand)
        ensures
            *final(self) == old(self).apply(cmd),
    {
        match cmd {
            LayerCommand::SetOpaque(v) => self.opaque = v,
            LayerCommand::SetFrame(size) => self.bounds = size,
            LayerCommand::SetDevice(id) => self.device = Some(id),
            LayerCommand::SetPixelFormat(f) => self.pixel_format = f,
            LayerCommand::SetFramebufferOnly(v) => self.framebuffer_only = v,
            LayerCommand::SetPresentsWithTransaction(v) => self.presents_with_transaction = v,
            LayerCommand::SetWantsExtendedDynamicRangeContent(v) => {
                self.wants_extended_dynamic_range_content = v
            },
            LayerCommand::SetMaximumDrawableCount(n) => self.maximum_drawable_count = n,
            LayerCommand::SetDrawableSize(s) => self.drawable_size = s,
            LayerCommand::SetAllowsNextDrawableTimeout(v) => self.allows_next_drawable_timeout = v,
            LayerCommand::SetDisplaySyncEnabled(v) => self.display_sync_enabled = v,
        }
    }

    /// Records the effect of a sequence of commands, in order.
    pub fn apply_commands(&mut self, cmds: &Vec<LayerCommand>)
        ensures
            *final(self) == old(self).apply_all(cmds@),
    {
        let ghost start = *self;
        let mut i: usize = 0;
        assert(cmds@.subrange(0, cmds@.len() as int) =~= cmds@);
        while i < cmds.len()
            invariant
                0 <= i <= cmds@.len(),
                start.apply_all(cmds@) == self.apply_all(cmds@.subrange(i as int, cmds@.len() as int)),
            decreases cmds@.len() - i,
        {
            proof {
                let rest = cmds@.subrange(i as int, cmds@.len() as int);
                assert(rest.drop_first() =~= cmds@.subrange(i + 1, cmds@.len() as int));
            }
            self.apply_command(cmds[i]);
            i += 1;
        }
        proof {
            assert(cmds@.subrange(i as int, cmds@.len() as int) =~= Seq::<LayerCommand>::empty());
        }
        assert(start.apply_all(cmds@) == *self);
    }
}

/// Applying two command sequences one after the other is applying their
/// concatenation.
pub proof fn lemma_apply_all_concat(l: LayerState, a: Seq<LayerCommand>, b: Seq<LayerCommand>)
    ensures
        l.apply_all(a + b) == l.apply_all(a).apply_all(b),
    decreases a.len(),
{
    if a.len() == 0 {
        assert(a + b =~= b);
    } else {
        assert((a + b).drop_first() =~= a.drop_first() + b);
        lemma_apply_all_concat(l.apply(a[0]), a.drop_first(), b);
    }
}

} // verus!
