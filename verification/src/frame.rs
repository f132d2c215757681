//! The frame-render protocol: the command sequence one frame records. A
//! frame is a single render pass that clears the target to a fixed color,
//! stores the result, and attaches no depth/stencil target.
//!
//! The clear color is carried as its three 8-bit channel inputs; the
//! platform loop applies the display gamma correction (each channel
//! normalized to the unit interval and raised to the 2.2 power, alpha fully
//! opaque) when it records the pass, since that mapping is floating-point.

use vstd::prelude::*;

verus! {

/// The red channel input of the fixed clear color.
pub const CLEAR_RED: u8 = 100;

/// The green channel input of the fixed clear color.
pub const CLEAR_GREEN: u8 = 149;

/// The blue channel input of the fixed clear color.
pub const CLEAR_BLUE: u8 = 237;

/// A clear color, as the three 8-bit channel inputs before display gamma
/// correction; alpha is always fully opaque.
#[derive(Clone, Copy, PartialEq, Eq, Structural, Debug)]
pub struct ClearColor {
    pub red: u8,
    pub green: u8,
    pub blue: u8,
}

/// What a render pass loads into its target before drawing.
#[derive(Clone, Copy, PartialEq, Eq, Structural, Debug)]
pub enum LoadOp {
    /// Reset every pixel to this color.
    Clear(ClearColor),
    /// Keep the target's previous contents.
    Keep,
}

/// One recorded render pass, reduced to what the frame protocol fixes.
#[derive(Clone, Copy, PartialEq, Eq, Structural, Debug)]
pub struct PassDesc {
    pub load: LoadOp,
    /// Whether the pass result is stored back to the target.
    pub store: bool,
    pub has_depth_stencil: bool,
}

/// One command buffer: the render passes it records, in order.
pub struct CommandList {
    pub passes: Vec<PassDesc>,
}

/// The one pass a frame records: a clear to the fixed color, stored, with
/// no depth/stencil attachment.
pub open spec fn clear_pass() -> PassDesc {
    PassDesc {
        load: LoadOp::Clear(ClearColor { red: CLEAR_RED, green: CLEAR_GREEN, blue: CLEAR_BLUE }),
        store: true,
        has_depth_stencil: false,
    }
}

/// The fixed clear color's channel inputs.
pub fn clear_color() -> (c: ClearColor)
    ensures
        c == (ClearColor { red: CLEAR_RED, green: CLEAR_GREEN, blue: CLEAR_BLUE }),
{
    ClearColor { red: CLEAR_RED, green: CLEAR_GREEN, blue: CLEAR_BLUE }
}

/// Builds the command sequence for one frame: exactly one clear-only pass.
pub fn frame_commands() -> (cb: CommandList)
    ensures
        cb.passes@ =~= seq![clear_pass()],
{
    let mut passes: Vec<PassDesc> = Vec::new();
    passes.push(PassDesc {
        load: LoadOp::Clear(clear_color()),
        store: true,
        has_depth_stencil: false,
    });
    CommandList { passes }
}

} // verus!
