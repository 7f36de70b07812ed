use vstd::prelude::*;
use crate::texture::{TextureFormat, TextureUsages};

verus! {

/// Largest width or height, in pixels, that the surface is configured with.
pub const MAX_SURFACE_DIMENSION: u32 = 8192;

/// A requested dimension, cut down to the largest that is configured.
pub open spec fn clamp_dimension_spec(requested: u32) -> u32 {
    if requested <= MAX_SURFACE_DIMENSION {
        requested
    } else {
        MAX_SURFACE_DIMENSION
    }
}

pub fn clamp_dimension(requested: u32) -> (r: u32)
    ensures
        r == clamp_dimension_spec(requested),
{
    if requested <= MAX_SURFACE_DIMENSION {
        requested
    } else {
        MAX_SURFACE_DIMENSION
    }
}

/// How finished frames are handed to the display.
#[derive(Clone, Copy, Debug, PartialEq, Eq, Structural)]
pub enum PresentMode {
    /// Frames wait in a queue for the display's refresh.
    Fifo,
}

/// Size and format of the presentation surface: the one place where the
/// current renderable size is kept.
#[derive(Clone, Copy, Debug, PartialEq, Eq, Structural)]
pub struct SurfaceConfiguration {
    pub usage: TextureUsages,
    pub format: TextureFormat,
    pub width: u32,
    pub height: u32,
    pub present_mode: PresentMode,
}

impl SurfaceConfiguration {
    /// Whether a request for this size is carried out; one with an empty
    /// side is passed over.
    pub open spec fn accepts(width: u32, height: u32) -> bool {
        width > 0 && height > 0
    }

    /// The configuration after a request for `width` by `height`.
    pub open spec fn configured(self, width: u32, height: u32) -> SurfaceConfiguration {
        if Self::accepts(width, height) {
            SurfaceConfiguration {
                width: clamp_dimension_spec(width),
                height: clamp_dimension_spec(height),
                ..self
            }
        } else {
            self
        }
    }

    /// Takes over a requested size, each side cut down to the largest that is
    /// configured. Says whether the surface has to be configured anew; if
    /// not, nothing has changed.
    pub fn configure(&mut self, width: u32, height: u32) -> (changed: bool)
        ensures
            changed == Self::accepts(width, height),
            *final(self) == old(self).configured(width, height),
    {
        if width > 0 && height > 0 {
            self.width = clamp_dimension(width);
            self.height = clamp_dimension(height);
            true
        } else {
            false
        }
    }
}

/// Why the surface gave no frame.
#[derive(Clone, Copy, Debug, PartialEq, Eq, Structural)]
pub enum SurfaceError {
    /// The surface did not answer in time.
    Timeout,
    /// The surface has changed under the renderer and must be configured
    /// anew.
    Outdated,
    /// The surface is gone and must be configured anew.
    Lost,
    /// The device has no memory left.
    OutOfMemory,
}

/// What the frame loop does about a frame that could not be acquired.
#[derive(Clone, Copy, Debug, PartialEq, Eq, Structural)]
pub enum Recovery {
    /// Configure the surface at its current size and try again at the next
    /// tick.
    Reconfigure,
    /// End the frame loop.
    Exit,
    /// Change nothing and try again at the next tick.
    Retry,
}

impl SurfaceError {
    /// What the frame loop does about this error.
    pub open spec fn recovery_spec(&self) -> Recovery {
        match self {
            SurfaceError::Lost => Recovery::Reconfigure,
            SurfaceError::Outdated => Recovery::Reconfigure,
            SurfaceError::OutOfMemory => Recovery::Exit,
            SurfaceError::Timeout => Recovery::Retry,
        }
    }

    pub fn recovery(&self) -> (r: Recovery)
        ensures
            r == self.recovery_spec(),
    {
        match self {
            SurfaceError::Lost => Recovery::Reconfigure,
            SurfaceError::Outdated => Recovery::Reconfigure,
            SurfaceError::OutOfMemory => Recovery::Exit,
            SurfaceError::Timeout => Recovery::Retry,
        }
    }
}

} // verus!
