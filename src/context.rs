use vstd::prelude::*;

verus! {

/// Largest surface width that the scene configures.
pub const MAX_SURFACE_WIDTH: u32 = 1280;

/// Largest surface height that the scene configures.
pub const MAX_SURFACE_HEIGHT: u32 = 720;

/// A surface size in physical pixels.
#[derive(Debug, Clone, Copy, PartialEq, Eq, Structural)]
pub struct SurfaceSize {
    pub width: u32,
    pub height: u32,
}

pub open spec fn min_u32(a: u32, b: u32) -> u32 {
    if a <= b {
        a
    } else {
        b
    }
}

pub open spec fn max_u32(a: u32, b: u32) -> u32 {
    if a >= b {
        a
    } else {
        b
    }
}

/// A requested size cut down to the largest surface the scene configures.
pub open spec fn capped_size(s: SurfaceSize) -> SurfaceSize {
    SurfaceSize {
        width: min_u32(s.width, MAX_SURFACE_WIDTH),
        height: min_u32(s.height, MAX_SURFACE_HEIGHT),
    }
}

/// The state that every render pass sees during a tick.
#[derive(Debug, Clone, Copy, PartialEq, Eq, Structural)]
pub struct ContextState {
    /// The configured surface size.
    pub size: SurfaceSize,
    /// A new terrain is wanted before the next frame is drawn.
    pub new_terrain: bool,
    /// The cursor is held by the window and mouse motion turns the camera.
    pub cursor_captured: bool,
}

impl ContextState {
    /// The state at startup for a window of the given inner size: each
    /// dimension raised to at least one pixel, a terrain requested, the
    /// cursor free.
    pub fn new(width: u32, height: u32) -> (r: ContextState)
        ensures
            r.size == (SurfaceSize { width: max_u32(width, 1), height: max_u32(height, 1) }),
            r.new_terrain,
            !r.cursor_captured,
    {
        let width = if width >= 1 {
            width
        } else {
            1
        };
        let height = if height >= 1 {
            height
        } else {
            1
        };
        ContextState { size: SurfaceSize { width, height }, new_terrain: true, cursor_captured: false }
    }

    /// Takes a new surface size, or the current one again when none is
    /// given, capped to the largest configured surface. A size with a zero
    /// dimension is ignored. Returns the size that the surface, the camera
    /// and the depth target are to be configured with, if any.
    pub fn resize(&mut self, new_size: Option<SurfaceSize>) -> (r: Option<SurfaceSize>)
        ensures
            ({
                let wanted = match new_size {
                    Some(s) => s,
                    None => old(self).size,
                };
                let capped = capped_size(wanted);
                if capped.width > 0 && capped.height > 0 {
                    &&& r == Some(capped)
                    &&& *final(self) == (ContextState { size: capped, ..*old(self) })
                } else {
                    &&& r is None
                    &&& *final(self) == *old(self)
                }
            }),
    {
        let wanted = match new_size {
            Some(s) => s,
            None => self.size,
        };
        let width = if wanted.width <= MAX_SURFACE_WIDTH {
            wanted.width
        } else {
            MAX_SURFACE_WIDTH
        };
        let height = if wanted.height <= MAX_SURFACE_HEIGHT {
            wanted.height
        } else {
            MAX_SURFACE_HEIGHT
        };
        if width > 0 && height > 0 {
            let size = SurfaceSize { width, height };
            self.size = size;
            Some(size)
        } else {
            None
        }
    }

    /// Whether the cursor is captured.
    pub fn is_cursor_captured(&self) -> (r: bool)
        ensures
            r == self.cursor_captured,
    {
        self.cursor_captured
    }

    /// Flips cursor capture and returns the new setting.
    pub fn toggle_cursor_capture(&mut self) -> (r: bool)
        ensures
            r == !old(self).cursor_captured,
            *final(self) == (ContextState { cursor_captured: r, ..*old(self) }),
    {
        self.cursor_captured = !self.cursor_captured;
        self.cursor_captured
    }

    /// The terrain pass's decision at the start of its update: returns whether
    /// a new terrain is to be generated and uploaded now, and leaves the
    /// request cleared either way.
    pub fn take_terrain_request(&mut self) -> (regenerate: bool)
        ensures
            regenerate == old(self).new_terrain,
            *final(self) == (ContextState { new_terrain: false, ..*old(self) }),
    {
        let regenerate = self.new_terrain;
        self.new_terrain = false;
        regenerate
    }
}

} // verus!
