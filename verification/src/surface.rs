//! The size of the surface that frames are presented on, and what to do
//! when a frame could not be presented.

use vstd::prelude::*;

verus! {

/// A size in pixels.
#[derive(Debug, Clone, Copy, PartialEq, Eq, Structural)]
pub struct Extent2 {
    pub w: u32,
    pub h: u32,
}

/// Why the surface gave no frame to render to.
#[derive(Debug, Clone, Copy, PartialEq, Eq, Structural)]
pub enum SurfaceError {
    /// The frame was not there in time.
    Timeout,
    /// The surface has changed underneath, as it does during a resize.
    Outdated,
    /// The surface was lost.
    Lost,
    /// There is no memory left for a frame.
    OutOfMemory,
}

impl SurfaceError {
    /// The surface is unavailable for now and will be back: everything but
    /// a lack of memory.
    pub open spec fn is_transient(self) -> bool {
        !(self is OutOfMemory)
    }
}

/// What the frame loop does after an attempt to present.
#[derive(Debug, Clone, Copy, PartialEq, Eq, Structural)]
pub enum Recovery {
    /// Go on with the next frame.
    Continue,
    /// Configure the surface anew with this size, then go on with the next
    /// frame.
    Reconfigure(Extent2),
    /// Give up.
    Abort,
}

/// What to do after an attempt to present on a surface of the size `size`.
pub open spec fn recovery_of(size: Extent2, outcome: Result<(), SurfaceError>) -> Recovery {
    match outcome {
        Ok(_) => Recovery::Continue,
        Err(error) => if error.is_transient() {
            Recovery::Reconfigure(size)
        } else {
            Recovery::Abort
        },
    }
}

/// The presentation size of a surface.
#[derive(Debug, Clone, Copy, PartialEq, Eq)]
pub struct Surface {
    fb_size: Extent2,
}

impl View for Surface {
    type V = Extent2;

    closed spec fn view(&self) -> Extent2 {
        self.fb_size
    }
}

impl Surface {
    /// A surface that was configured with the size `fb_size`.
    pub fn new(fb_size: Extent2) -> (surface: Self)
        ensures
            surface@ == fb_size,
    {
        Surface { fb_size }
    }

    /// Current frame buffer's size in pixels.
    pub fn fb_size(&self) -> (size: Extent2)
        ensures
            size == self@,
    {
        self.fb_size
    }

    /// Takes a new frame buffer size, and says whether the surface has to be
    /// configured anew for it: it has, unless the size is the one it has
    /// already. A size without area is not a size to resize to.
    pub fn resize_raw(&mut self, new_size: Extent2) -> (reconfigure: bool)
        requires
            new_size.w != 0 && new_size.h != 0,
        ensures
            final(self)@ == new_size,
            reconfigure == (old(self)@ != new_size),
    {
        if self.fb_size.w == new_size.w && self.fb_size.h == new_size.h {
            return false;
        }
        self.fb_size = new_size;
        true
    }

    /// What to do after an attempt to present a frame. A surface that is
    /// unavailable for now is configured anew with its current size and the
    /// loop goes on with the next frame: such a failure never ends it.
    pub fn after_present(&self, outcome: Result<(), SurfaceError>) -> (recovery: Recovery)
        ensures
            recovery == recovery_of(self@, outcome),
            recovery is Abort <==> outcome == Err::<(), SurfaceError>(SurfaceError::OutOfMemory),
    {
        match outcome {
            Ok(_) => Recovery::Continue,
            Err(SurfaceError::OutOfMemory) => Recovery::Abort,
            Err(_) => Recovery::Reconfigure(self.fb_size),
        }
    }
}

} // verus!
