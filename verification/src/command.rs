//! Commands: tagged values representing one lifecycle or input event each,
//! and the mapping from raw platform touch-action codes to touch phases.

use vstd::prelude::*;

verus! {

/// Raw platform action code for a primary-pointer press.
pub const TOUCH_ACTION_DOWN: u32 = 0;
/// Raw platform action code for a primary-pointer release.
pub const TOUCH_ACTION_UP: u32 = 1;
/// Raw platform action code for a pointer movement.
pub const TOUCH_ACTION_MOVE: u32 = 2;
/// Raw platform action code for a cancelled gesture.
pub const TOUCH_ACTION_CANCEL: u32 = 3;
/// Raw platform action code for a secondary-pointer press.
pub const TOUCH_ACTION_POINTER_DOWN: u32 = 5;
/// Raw platform action code for a secondary-pointer release.
pub const TOUCH_ACTION_POINTER_UP: u32 = 6;

/// The phase of a touch gesture, as dispatched to the frame engine.
#[derive(Clone, Copy, Debug, PartialEq, Eq, Structural)]
pub enum TouchPhase {
    Started,
    Moved,
    Ended,
    Canceled,
}

/// One touch sample. The coordinates are carried as the raw bit patterns of the
/// platform's single-precision values; this library never interprets them, it
/// only forwards them to the frame engine.
#[derive(Clone, Copy, Debug, PartialEq, Eq, Structural)]
pub struct TouchEvent {
    pub phase: TouchPhase,
    pub pointer_id: u64,
    pub x_bits: u32,
    pub y_bits: u32,
}

/// An owned reference to a native surface. The handle is a move-only resource:
/// ownership passes into a `Command::SurfaceCreated`, from there to the
/// lifecycle state, and back out when the surface is torn down. The embedding
/// keys its real platform window by the identifier carried here.
#[derive(Debug, PartialEq, Eq, Structural)]
pub struct WindowHandle {
    id: u64,
}

impl WindowHandle {
    /// The identifier the embedding chose for the platform window.
    pub closed spec fn id_spec(self) -> u64 {
        self.id
    }

    /// Wraps an identifier of a platform window as an owned handle.
    pub fn new(id: u64) -> (h: WindowHandle)
        ensures
            h.id_spec() == id,
    {
        WindowHandle { id }
    }

    /// Reads the identifier without giving up ownership.
    pub fn id(&self) -> (id: u64)
        ensures
            id == self.id_spec(),
    {
        self.id
    }
}

/// A lifecycle notification dispatched to the frame engine.
#[derive(Clone, Copy, Debug, PartialEq, Eq, Structural)]
pub enum LifecycleEvent {
    /// First-ever resume of the process.
    Started,
    /// A resume after the application had already started once.
    Resumed,
    /// The application is about to lose the CPU or its surface.
    Suspended,
}

/// One lifecycle or input event, as queued by a platform callback.
#[derive(Debug, PartialEq, Eq, Structural)]
pub enum Command {
    /// A native surface exists; ownership of its handle transfers with the command.
    SurfaceCreated(WindowHandle),
    /// The surface has concrete pixel dimensions (width, height).
    SurfaceChanged(u32, u32),
    /// The surface is about to be reclaimed by the host.
    SurfaceDestroyed,
    /// Request cooperative termination of the loop.
    Stop,
    /// A touch sample to forward.
    Touch(TouchEvent),
    /// The host resumed the application.
    Resumed,
    /// The host paused the application.
    Paused,
}

/// The touch phase a raw platform action code denotes, if any. Down and
/// pointer-down both start a gesture; up and pointer-up both end one; every
/// code outside the table yields no event.
pub open spec fn phase_of_action(code: u32) -> Option<TouchPhase> {
    if code == TOUCH_ACTION_DOWN || code == TOUCH_ACTION_POINTER_DOWN {
        Some(TouchPhase::Started)
    } else if code == TOUCH_ACTION_UP || code == TOUCH_ACTION_POINTER_UP {
        Some(TouchPhase::Ended)
    } else if code == TOUCH_ACTION_MOVE {
        Some(TouchPhase::Moved)
    } else if code == TOUCH_ACTION_CANCEL {
        Some(TouchPhase::Canceled)
    } else {
        None
    }
}

/// Maps a raw platform touch-action code to a touch phase. Total: an
/// unrecognized code maps to `None` and the sample is dropped silently.
pub fn map_touch_phase(code: u32) -> (r: Option<TouchPhase>)
    ensures
        r == phase_of_action(code),
{
    if code == TOUCH_ACTION_DOWN || code == TOUCH_ACTION_POINTER_DOWN {
        Some(TouchPhase::Started)
    } else if code == TOUCH_ACTION_UP || code == TOUCH_ACTION_POINTER_UP {
        Some(TouchPhase::Ended)
    } else if code == TOUCH_ACTION_MOVE {
        Some(TouchPhase::Moved)
    } else if code == TOUCH_ACTION_CANCEL {
        Some(TouchPhase::Canceled)
    } else {
        None
    }
}

} // verus!
