//! The vocabulary shared by a capture session and the code that owns its
//! native handles: what the session asks for, what it is told, and what it
//! keeps track of.

use vstd::prelude::*;
use crate::cursor::{PointerReport, ShapeInfo};
use crate::status::CaptureError;

verus! {

/// Resource usage of a texture that the processor reads back.
pub const USAGE_STAGING: u32 = 3;

/// Processor access to a texture: reading.
pub const CPU_ACCESS_READ: u32 = 0x20000;

/// The priority at which a resource is kept in memory the longest.
pub const RESOURCE_PRIORITY_MAXIMUM: u32 = 0xc800_0000;

/// Map a surface for reading.
pub const MAP_READ: u32 = 1;

/// What an acquired frame says besides its pixels.
#[derive(Clone, Copy, Debug, PartialEq, Eq, Structural)]
pub struct FrameInfo {
    /// The pointer as this frame reports it; a zero time stamp means that the
    /// frame carries no pointer update.
    pub pointer: PointerReport,
    /// Bytes needed to hold the new pointer shape, zero where the shape did
    /// not change.
    pub shape_buffer_size: u32,
}

/// A native operation that the session wants performed, or the end of what
/// was asked of it.
#[derive(Clone, Copy, Debug, PartialEq, Eq, Structural)]
pub enum Action {
    /// Create the device and its context on the display's adapter. Answered
    /// by `Status`.
    CreateDevice,
    /// Open the duplication of the display's output on the device. Answered
    /// by `Status`.
    DuplicateOutput,
    /// Ask the duplication whether the desktop image lies in system memory.
    /// Answered by `Description`.
    QueryDescription,
    /// Unmap the desktop surface. Answered by `Done`.
    UnmapDesktopSurface,
    /// Unmap the surface that was read back. Answered by `Done`.
    UnmapSurface,
    /// Give up the surface that was read back. Answered by `Done`.
    ReleaseSurface,
    /// Hand the frame back to the duplication. Answered by `Done`.
    ReleaseFrame,
    /// Wait up to `timeout` milliseconds for the next frame. Answered by
    /// `Acquired`.
    AcquireFrame { timeout: u32 },
    /// Fetch the pointer shape into a buffer of `size` bytes. Answered by
    /// `Shape`.
    FetchPointerShape { size: u32 },
    /// Map the desktop surface. Answered by `Mapped`.
    MapDesktopSurface,
    /// Ask the frame's resource for its texture. Answered by `Status`.
    QueryTexture,
    /// Create a texture like the frame's, with these four settings in place
    /// of the frame's own. Answered by `Status`.
    CreateStagingTexture { usage: u32, bind_flags: u32, cpu_access_flags: u32, misc_flags: u32 },
    /// Set the eviction priority of the staging texture. Answered by `Done`.
    SetEvictionPriority { priority: u32 },
    /// Ask the staging texture for its surface. Answered by `Status`.
    QuerySurface,
    /// Copy the frame's texture into the staging texture. Answered by `Done`.
    CopyToStaging,
    /// Map the surface of the staging texture. Answered by `Mapped`.
    MapSurface { flags: u32 },
    /// Give up the frame's resource. Answered by `Done`.
    ReleaseResource,
    /// Give up the frame's texture. Answered by `Done`.
    ReleaseTexture,
    /// Give up the staging texture. Answered by `Done`.
    ReleaseStaging,
    /// Give up the duplication. Answered by `Done`.
    ReleaseDuplication,
    /// Give up the device. Answered by `Done`.
    ReleaseDevice,
    /// Give up the device context. Answered by `Done`.
    ReleaseContext,
    /// The session is open.
    Ready,
    /// The mapped memory holds a frame of `len` bytes; draw the cursor into
    /// it where `draw_cursor` is set.
    Expose { len: u64, draw_cursor: bool },
    /// What was asked of the session failed.
    Fail(CaptureError),
    /// The session holds nothing any more.
    Closed,
}

/// What came of the operation that the session asked for.
#[derive(Debug)]
pub enum Event {
    /// An operation that cannot fail was performed.
    Done,
    /// The status code of the operation.
    Status(i32),
    /// Whether the desktop image lies in memory that the processor maps
    /// directly.
    Description { desktop_image_in_system_memory: bool },
    /// The status code of the wait and, on success, what the frame says.
    Acquired { status: i32, info: FrameInfo },
    /// The status code of the fetch and, on success, the shape.
    Shape { status: i32, bytes: Vec<u8>, layout: ShapeInfo },
    /// The status code of the mapping and, on success, the bytes from one row
    /// of the mapped image to the next, as the platform reports them.
    Mapped { status: i32, pitch: i32 },
}

/// What follows once the frame's transient handles are given up.
#[derive(Clone, Copy, Debug, PartialEq, Eq, Structural)]
pub enum Next {
    /// The pull ends with this error.
    Fail(CaptureError),
    /// The pull ends with the pixels exposed.
    Expose,
    /// The staging surface is mapped.
    MapSurface,
}

/// What the session is waiting for.
#[derive(Clone, Copy, Debug, PartialEq, Eq, Structural)]
pub enum Phase {
    /// Nothing native exists yet.
    Fresh,
    /// The device is being created.
    CreatingDevice,
    /// The duplication is being opened.
    Duplicating,
    /// The duplication is being asked where the desktop image lies.
    Describing,
    /// The duplication could not be opened; the device is being given up.
    AbortingDevice(CaptureError),
    /// The duplication could not be opened; the context is being given up.
    AbortingContext(CaptureError),
    /// Open, no frame exposed.
    Idle,
    /// Open, the mapped memory holds the last frame.
    Exposed,
    /// The desktop surface is being unmapped before the next frame.
    UnmappingDesktop,
    /// The read-back surface is being unmapped before the next frame.
    UnmappingSurface,
    /// The read-back surface is being given up before the next frame.
    ReleasingSurface,
    /// The previous frame is being handed back.
    ReleasingFrame,
    /// The next frame is awaited.
    Acquiring,
    /// The pointer shape is being fetched.
    FetchingShape,
    /// The desktop surface is being mapped.
    MappingDesktop,
    /// The frame's texture is being asked for.
    QueryingTexture,
    /// The staging texture is being created.
    CreatingStaging,
    /// The staging texture's eviction priority is being set.
    SettingPriority,
    /// The staging texture's surface is being asked for.
    QueryingSurface,
    /// The frame is being copied into the staging texture.
    Copying,
    /// A transient handle of the frame is being given up.
    Cleaning(Next),
    /// The staging surface is being mapped.
    MappingSurface,
    /// Closing: the read-back surface is being unmapped.
    ClosingUnmap,
    /// Closing: the read-back surface is being given up.
    ClosingSurface,
    /// Closing: the duplication is being given up.
    ClosingDuplication,
    /// Closing: the device is being given up.
    ClosingDevice,
    /// Closing: the context is being given up.
    ClosingContext,
    /// Nothing native is held any more.
    Closed,
}

/// The coarse state of a session: where it stands between two pulls.
#[derive(Clone, Copy, Debug, PartialEq, Eq, Structural)]
pub enum Stage {
    /// No frame is held and none is exposed.
    Idle,
    /// A frame was acquired and its pixels are not exposed yet.
    Acquired,
    /// The mapped memory holds the last frame.
    Exposed,
}

/// Which native objects the session holds.
#[derive(Clone, Copy, Debug, PartialEq, Eq, Structural)]
pub struct Ledger {
    /// The device.
    pub device: bool,
    /// The device context.
    pub context: bool,
    /// The duplication.
    pub duplication: bool,
    /// A frame was acquired and not handed back.
    pub in_flight: bool,
    /// The resource of the acquired frame.
    pub resource: bool,
    /// The texture of the acquired frame.
    pub texture: bool,
    /// The staging texture.
    pub staging: bool,
    /// The surface of the staging texture.
    pub surface: bool,
    /// That surface is mapped.
    pub surface_mapped: bool,
    /// The desktop surface is mapped.
    pub desktop_mapped: bool,
}

impl Ledger {
    /// Nothing is held.
    pub open spec fn spec_empty() -> Ledger {
        Ledger {
            device: false,
            context: false,
            duplication: false,
            in_flight: false,
            resource: false,
            texture: false,
            staging: false,
            surface: false,
            surface_mapped: false,
            desktop_mapped: false,
        }
    }

    /// The ledger of a session that holds nothing.
    pub fn empty() -> (ledger: Ledger)
        ensures
            ledger == Ledger::spec_empty(),
    {
        Ledger {
            device: false,
            context: false,
            duplication: false,
            in_flight: false,
            resource: false,
            texture: false,
            staging: false,
            surface: false,
            surface_mapped: false,
            desktop_mapped: false,
        }
    }

    /// None of the handles that live only while a frame is read is held.
    pub open spec fn no_transients(self) -> bool {
        !self.resource && !self.texture && !self.staging
    }

    /// No frame is held, and nothing of a frame is mapped or kept.
    pub open spec fn frame_free(self) -> bool {
        &&& !self.in_flight
        &&& self.no_transients()
        &&& !self.surface
        &&& !self.surface_mapped
        &&& !self.desktop_mapped
    }

    /// Device, context and duplication are held.
    pub open spec fn open(self) -> bool {
        self.device && self.context && self.duplication
    }
}

} // verus!
