//! The capture surface: the window that receives the keys to record.

use vstd::prelude::*;

verus! {

/// Event-mask bit that subscribes a window to key presses.
pub const KEY_PRESS_MASK: u32 = 1;

/// Event-mask bit that subscribes a window to key releases.
pub const KEY_RELEASE_MASK: u32 = 2;

/// Width and height of the capture window.
pub const SURFACE_SIZE: u16 = 256;

/// Depth that stands for "the depth of the parent window".
pub const COPY_DEPTH_FROM_PARENT: u8 = 0;

/// Visual that stands for "the visual of the parent window".
pub const COPY_VISUAL_FROM_PARENT: u32 = 0;

/// Class of a window that is drawn on the screen and takes input.
pub const INPUT_OUTPUT: u16 = 1;

/// Geometry and subscriptions of a window to create.
#[derive(Clone, Copy, Debug, PartialEq, Eq, Structural)]
pub struct Surface {
    /// Bits per pixel, or `COPY_DEPTH_FROM_PARENT`.
    pub depth: u8,
    pub x: i16,
    pub y: i16,
    pub width: u16,
    pub height: u16,
    pub border_width: u16,
    /// Window class: `INPUT_OUTPUT` for a window that can be seen.
    pub class: u16,
    /// Visual type, or `COPY_VISUAL_FROM_PARENT`.
    pub visual: u32,
    /// The kinds of event that the window asks for.
    pub event_mask: u32,
}

/// The capture window: a visible square of `SURFACE_SIZE` at the origin, with
/// the depth and the visual of its parent and without a border, that asks
/// for key presses and key releases and for nothing else.
pub open spec fn capture_surface_of() -> Surface {
    Surface {
        depth: COPY_DEPTH_FROM_PARENT,
        x: 0,
        y: 0,
        width: SURFACE_SIZE,
        height: SURFACE_SIZE,
        border_width: 0,
        class: INPUT_OUTPUT,
        visual: COPY_VISUAL_FROM_PARENT,
        event_mask: KEY_PRESS_MASK | KEY_RELEASE_MASK,
    }
}

/// Describes the capture window.
pub fn capture_surface() -> (surface: Surface)
    ensures
        surface == capture_surface_of(),
        surface.event_mask == 3,
{
    assert(1u32 | 2u32 == 3u32) by (bit_vector);
    Surface {
        depth: COPY_DEPTH_FROM_PARENT,
        x: 0,
        y: 0,
        width: SURFACE_SIZE,
        height: SURFACE_SIZE,
        border_width: 0,
        class: INPUT_OUTPUT,
        visual: COPY_VISUAL_FROM_PARENT,
        event_mask: KEY_PRESS_MASK | KEY_RELEASE_MASK,
    }
}

} // verus!
