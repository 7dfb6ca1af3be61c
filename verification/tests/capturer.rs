use dxgi_capture::capturer::Capturer;
use dxgi_capture::cursor::{PointerReport, ShapeInfo, SHAPE_COLOR};
use dxgi_capture::display::{Display, OutputDesc, Rect, Rotation};
use dxgi_capture::protocol::{
    Action, Event, FrameInfo, Ledger, Next, Phase, Stage, CPU_ACCESS_READ, MAP_READ,
    RESOURCE_PRIORITY_MAXIMUM, USAGE_STAGING,
};
use dxgi_capture::status::{
    CaptureError, DXGI_ERROR_ACCESS_LOST, DXGI_ERROR_INVALID_CALL, DXGI_ERROR_UNSUPPORTED,
    DXGI_ERROR_WAIT_TIMEOUT, E_ACCESSDENIED, S_OK,
};

fn display(left: i32, top: i32, width: i32, height: i32) -> Display {
    Display::new(
        0,
        0,
        OutputDesc {
            device_name: [0u16; 32],
            coordinates: Rect { left, top, right: left + width, bottom: top + height },
            rotation: Rotation::Identity,
        },
    )
}

fn quiet() -> FrameInfo {
    FrameInfo {
        pointer: PointerReport { x: 0, y: 0, visible: false, time_stamp: 0 },
        shape_buffer_size: 0,
    }
}

fn acquired(info: FrameInfo) -> Event {
    Event::Acquired { status: S_OK, info }
}

/// Opens a session on a 4 x 2 display, with a priming pull that times out.
fn opened(fastlane: bool, capture_mouse: bool) -> Capturer {
    let mut session = Capturer::new(&display(0, 0, 4, 2), capture_mouse).unwrap();
    assert_eq!(session.open(), Action::CreateDevice);
    assert_eq!(session.advance(Event::Status(S_OK)), Action::DuplicateOutput);
    assert_eq!(session.advance(Event::Status(S_OK)), Action::QueryDescription);
    assert_eq!(
        session.advance(Event::Description { desktop_image_in_system_memory: fastlane }),
        Action::AcquireFrame { timeout: 0 }
    );
    assert_eq!(
        session.advance(Event::Acquired { status: DXGI_ERROR_WAIT_TIMEOUT, info: quiet() }),
        Action::Ready
    );
    assert_eq!(session.phase(), Phase::Idle);
    assert_eq!(session.fastlane(), fastlane);
    session
}

/// A stand-in for the platform that counts what is held.
struct Native {
    device: i32,
    context: i32,
    duplication: i32,
    frames: i32,
    resource: i32,
    texture: i32,
    staging: i32,
    surface: i32,
    surface_maps: i32,
    desktop_maps: i32,
    pitch: i32,
    next_frame: FrameInfo,
    shape: Vec<u8>,
    layout: ShapeInfo,
    performed: usize,
}

impl Native {
    fn new(pitch: i32) -> Native {
        Native {
            device: 0,
            context: 0,
            duplication: 0,
            frames: 0,
            resource: 0,
            texture: 0,
            staging: 0,
            surface: 0,
            surface_maps: 0,
            desktop_maps: 0,
            pitch,
            next_frame: quiet(),
            shape: Vec::new(),
            layout: ShapeInfo { kind: 0, width: 0, height: 0, pitch: 0, hot_x: 0, hot_y: 0 },
            performed: 0,
        }
    }

    fn give_up(count: &mut i32) -> Event {
        assert!(*count > 0, "given up twice");
        *count -= 1;
        Event::Done
    }

    fn perform(&mut self, action: Action, fastlane: bool) -> Event {
        self.performed += 1;
        match action {
            Action::CreateDevice => {
                self.device += 1;
                self.context += 1;
                Event::Status(S_OK)
            }
            Action::DuplicateOutput => {
                self.duplication += 1;
                Event::Status(S_OK)
            }
            Action::QueryDescription => {
                Event::Description { desktop_image_in_system_memory: fastlane }
            }
            Action::UnmapDesktopSurface => {
                self.desktop_maps = 0;
                Event::Done
            }
            Action::UnmapSurface => {
                assert_eq!(self.surface, 1);
                self.surface_maps = 0;
                Event::Done
            }
            Action::ReleaseSurface => {
                assert_eq!(self.surface_maps, 0);
                Native::give_up(&mut self.surface)
            }
            Action::ReleaseFrame => {
                self.frames = 0;
                Event::Done
            }
            Action::AcquireFrame { .. } => {
                assert_eq!(self.frames, 0, "two frames in flight");
                assert_eq!(self.surface, 0, "surface kept over an acquire");
                assert_eq!(self.surface_maps + self.desktop_maps, 0, "mapped over an acquire");
                assert_eq!(self.resource + self.texture + self.staging, 0);
                self.frames += 1;
                self.resource += 1;
                acquired(self.next_frame)
            }
            Action::FetchPointerShape { size } => {
                assert!(size as usize >= self.shape.len());
                Event::Shape { status: S_OK, bytes: self.shape.clone(), layout: self.layout }
            }
            Action::MapDesktopSurface => {
                assert_eq!(self.frames, 1);
                self.desktop_maps += 1;
                Event::Mapped { status: S_OK, pitch: self.pitch }
            }
            Action::QueryTexture => {
                assert_eq!(self.resource, 1);
                self.texture += 1;
                Event::Status(S_OK)
            }
            Action::CreateStagingTexture { usage, bind_flags, cpu_access_flags, misc_flags } => {
                assert_eq!((usage, bind_flags, cpu_access_flags, misc_flags), (3, 0, 0x20000, 0));
                self.staging += 1;
                Event::Status(S_OK)
            }
            Action::SetEvictionPriority { priority } => {
                assert_eq!(priority, 0xc800_0000);
                assert_eq!(self.staging, 1);
                Event::Done
            }
            Action::QuerySurface => {
                assert_eq!(self.staging, 1);
                self.surface += 1;
                Event::Status(S_OK)
            }
            Action::CopyToStaging => {
                assert_eq!((self.texture, self.staging), (1, 1));
                Event::Done
            }
            Action::MapSurface { flags } => {
                assert_eq!(flags, 1);
                assert_eq!(self.surface, 1);
                self.surface_maps += 1;
                Event::Mapped { status: S_OK, pitch: self.pitch }
            }
            Action::ReleaseResource => Native::give_up(&mut self.resource),
            Action::ReleaseTexture => Native::give_up(&mut self.texture),
            Action::ReleaseStaging => Native::give_up(&mut self.staging),
            Action::ReleaseDuplication => {
                self.frames = 0;
                self.desktop_maps = 0;
                Native::give_up(&mut self.duplication)
            }
            Action::ReleaseDevice => Native::give_up(&mut self.device),
            Action::ReleaseContext => Native::give_up(&mut self.context),
            Action::Ready | Action::Expose { .. } | Action::Fail(_) | Action::Closed => {
                panic!("nothing to perform for {:?}", action)
            }
        }
    }

    /// Performs what the session asks for until it says that it is done.
    fn run(&mut self, session: &mut Capturer, first: Action, fastlane: bool) -> Action {
        let mut action = first;
        let mut steps = 0;
        loop {
            match action {
                Action::Ready | Action::Expose { .. } | Action::Fail(_) | Action::Closed => {
                    return action
                }
                _ => {}
            }
            let event = self.perform(action, fastlane);
            action = session.advance(event);
            steps += 1;
            assert!(steps <= 15, "the session does not come to an end");
        }
    }
}

#[test]
fn constants_have_the_platform_values() {
    assert_eq!(USAGE_STAGING, 3);
    assert_eq!(CPU_ACCESS_READ, 0x20000);
    assert_eq!(RESOURCE_PRIORITY_MAXIMUM, 0xc800_0000);
    assert_eq!(MAP_READ, 1);
}

#[test]
fn new_session_is_fresh() {
    let session = Capturer::new(&display(10, 20, 640, 480), true).unwrap();
    assert_eq!(session.phase(), Phase::Fresh);
    assert_eq!(session.stage(), Stage::Idle);
    let control = session.control();
    assert_eq!((control.width, control.height), (640, 480));
    assert_eq!((control.place.left, control.place.top), (10, 20));
    assert_eq!((control.place.output, control.place.offset_x, control.place.offset_y), (0, 0, 0));
    assert!(control.capture_mouse);
    assert_eq!(control.held, Ledger::empty());
    assert_eq!(session.len(), 0);
    assert!(!session.cursor().visible());
}

#[test]
fn display_without_inside_is_refused() {
    assert!(matches!(
        Capturer::new(&display(0, 0, 0, 10), false),
        Err(CaptureError::InvalidRequest)
    ));
    assert!(matches!(
        Capturer::new(&display(0, 0, 10, -1), false),
        Err(CaptureError::InvalidRequest)
    ));
    let huge = Display::new(
        0,
        0,
        OutputDesc {
            device_name: [0u16; 32],
            coordinates: Rect { left: i32::MIN, top: 0, right: i32::MAX, bottom: 1 },
            rotation: Rotation::Identity,
        },
    );
    assert!(matches!(Capturer::new(&huge, false), Err(CaptureError::InvalidRequest)));
}

#[test]
fn device_failure_ends_the_opening() {
    let mut session = Capturer::new(&display(0, 0, 4, 2), false).unwrap();
    assert_eq!(session.open(), Action::CreateDevice);
    assert_eq!(
        session.advance(Event::Status(E_ACCESSDENIED)),
        Action::Fail(CaptureError::Unclassified)
    );
    assert_eq!(session.phase(), Phase::Closed);
    assert_eq!(session.control().held, Ledger::empty());
}

#[test]
fn informational_device_status_is_a_failure() {
    let mut session = Capturer::new(&display(0, 0, 4, 2), false).unwrap();
    session.open();
    assert_eq!(session.advance(Event::Status(1)), Action::Fail(CaptureError::Unclassified));
}

#[test]
fn duplication_failure_gives_up_device_and_context() {
    let mut session = Capturer::new(&display(0, 0, 4, 2), false).unwrap();
    session.open();
    assert_eq!(session.advance(Event::Status(S_OK)), Action::DuplicateOutput);
    assert!(session.control().held.device && session.control().held.context);
    assert_eq!(session.advance(Event::Status(DXGI_ERROR_UNSUPPORTED)), Action::ReleaseDevice);
    assert_eq!(session.advance(Event::Done), Action::ReleaseContext);
    assert_eq!(session.advance(Event::Done), Action::Fail(CaptureError::Unsupported));
    assert_eq!(session.phase(), Phase::Closed);
    assert_eq!(session.control().held, Ledger::empty());
}

#[test]
fn opening_ends_ready_whatever_the_priming_pull_gives() {
    let session = opened(true, false);
    assert_eq!(session.stage(), Stage::Idle);

    let mut native = Native::new(16);
    let mut session = Capturer::new(&display(0, 0, 4, 2), false).unwrap();
    let first = session.open();
    assert_eq!(native.run(&mut session, first, false), Action::Ready);
    assert_eq!(session.phase(), Phase::Exposed);
    assert_eq!(session.len(), 32);
    assert!(!session.fastlane());
}

#[test]
fn priming_pull_skips_the_release_of_a_last_frame() {
    let mut session = Capturer::new(&display(0, 0, 4, 2), false).unwrap();
    session.open();
    session.advance(Event::Status(S_OK));
    session.advance(Event::Status(S_OK));
    assert_eq!(
        session.advance(Event::Description { desktop_image_in_system_memory: true }),
        Action::AcquireFrame { timeout: 0 }
    );
    assert_eq!(session.advance(acquired(quiet())), Action::MapDesktopSurface);
    assert_eq!(session.advance(Event::Mapped { status: S_OK, pitch: 16 }), Action::ReleaseResource);
    assert_eq!(session.advance(Event::Done), Action::Ready);
    assert_eq!(session.phase(), Phase::Exposed);
}

#[test]
fn poll_without_a_new_frame_times_out() {
    let mut session = opened(true, false);
    assert_eq!(session.frame(0), Action::UnmapDesktopSurface);
    assert_eq!(session.advance(Event::Done), Action::ReleaseFrame);
    assert_eq!(session.advance(Event::Done), Action::AcquireFrame { timeout: 0 });
    assert_eq!(
        session.advance(Event::Acquired { status: DXGI_ERROR_WAIT_TIMEOUT, info: quiet() }),
        Action::Fail(CaptureError::TimedOut)
    );
    assert_eq!(session.phase(), Phase::Idle);
    assert_eq!(session.stage(), Stage::Idle);
    assert!(!session.control().held.in_flight);
}

#[test]
fn wait_is_handed_on_unchanged() {
    for timeout in [0u32, 1, 16, 1000, u32::MAX] {
        let mut session = opened(false, false);
        assert_eq!(session.frame(timeout), Action::ReleaseFrame);
        assert_eq!(session.advance(Event::Done), Action::AcquireFrame { timeout });
    }
}

#[test]
fn acquire_failures_come_back_by_kind() {
    let cases = [
        (DXGI_ERROR_ACCESS_LOST, CaptureError::SessionInvalidated),
        (DXGI_ERROR_INVALID_CALL, CaptureError::InvalidRequest),
        (E_ACCESSDENIED, CaptureError::PermissionDenied),
        (DXGI_ERROR_UNSUPPORTED, CaptureError::Unsupported),
        (-1, CaptureError::Unclassified),
    ];
    for (status, error) in cases {
        let mut session = opened(false, false);
        session.frame(5);
        session.advance(Event::Done);
        assert_eq!(
            session.advance(Event::Acquired { status, info: quiet() }),
            Action::Fail(error)
        );
        assert_eq!(session.phase(), Phase::Idle);
    }
}

#[test]
fn fastlane_pull_in_order() {
    let mut session = opened(true, false);
    assert_eq!(session.frame(7), Action::UnmapDesktopSurface);
    assert_eq!(session.phase(), Phase::UnmappingDesktop);
    assert_eq!(session.advance(Event::Done), Action::ReleaseFrame);
    assert_eq!(session.advance(Event::Done), Action::AcquireFrame { timeout: 7 });
    assert_eq!(session.advance(acquired(quiet())), Action::MapDesktopSurface);
    assert_eq!(session.stage(), Stage::Acquired);
    assert_eq!(session.advance(Event::Mapped { status: S_OK, pitch: 20 }), Action::ReleaseResource);
    assert_eq!(session.phase(), Phase::Cleaning(Next::Expose));
    assert_eq!(session.advance(Event::Done), Action::Expose { len: 40, draw_cursor: false });
    assert_eq!(session.stage(), Stage::Exposed);
    assert_eq!(session.len(), 40);
    assert_eq!(session.layout().pitch, 20);
    let held = session.control().held;
    assert!(held.in_flight && held.desktop_mapped);
    assert!(!held.resource && !held.texture && !held.staging && !held.surface);
}

#[test]
fn fastlane_map_failure_gives_up_the_resource_first() {
    let mut session = opened(true, false);
    session.frame(0);
    session.advance(Event::Done);
    session.advance(Event::Done);
    session.advance(acquired(quiet()));
    assert_eq!(
        session.advance(Event::Mapped { status: DXGI_ERROR_ACCESS_LOST, pitch: 0 }),
        Action::ReleaseResource
    );
    assert_eq!(session.advance(Event::Done), Action::Fail(CaptureError::SessionInvalidated));
    assert_eq!(session.phase(), Phase::Idle);
    assert!(!session.control().held.desktop_mapped);
}

#[test]
fn readback_pull_in_order() {
    let mut session = opened(false, false);
    assert_eq!(session.frame(3), Action::ReleaseFrame);
    assert_eq!(session.advance(Event::Done), Action::AcquireFrame { timeout: 3 });
    assert_eq!(session.advance(acquired(quiet())), Action::QueryTexture);
    assert_eq!(
        session.advance(Event::Status(S_OK)),
        Action::CreateStagingTexture {
            usage: USAGE_STAGING,
            bind_flags: 0,
            cpu_access_flags: CPU_ACCESS_READ,
            misc_flags: 0
        }
    );
    assert_eq!(
        session.advance(Event::Status(S_OK)),
        Action::SetEvictionPriority { priority: RESOURCE_PRIORITY_MAXIMUM }
    );
    assert_eq!(session.advance(Event::Done), Action::QuerySurface);
    assert_eq!(session.advance(Event::Status(S_OK)), Action::CopyToStaging);
    assert_eq!(session.advance(Event::Done), Action::ReleaseResource);
    assert_eq!(session.advance(Event::Done), Action::ReleaseTexture);
    assert_eq!(session.advance(Event::Done), Action::ReleaseStaging);
    assert_eq!(session.advance(Event::Done), Action::MapSurface { flags: MAP_READ });
    assert_eq!(
        session.advance(Event::Mapped { status: S_OK, pitch: 16 }),
        Action::Expose { len: 32, draw_cursor: false }
    );
    let held = session.control().held;
    assert!(held.in_flight && held.surface && held.surface_mapped);
    assert!(!held.resource && !held.texture && !held.staging && !held.desktop_mapped);

    // The next pull lets go of the surface before it asks for a frame.
    assert_eq!(session.frame(0), Action::UnmapSurface);
    assert_eq!(session.advance(Event::Done), Action::ReleaseSurface);
    assert_eq!(session.advance(Event::Done), Action::ReleaseFrame);
    assert_eq!(session.advance(Event::Done), Action::AcquireFrame { timeout: 0 });
    assert_eq!(session.control().held.surface, false);
    assert_eq!(session.control().held.in_flight, false);
}

#[test]
fn staging_failure_gives_up_what_the_frame_brought() {
    let mut session = opened(false, false);
    session.frame(0);
    session.advance(Event::Done);
    session.advance(acquired(quiet()));
    session.advance(Event::Status(S_OK));
    assert_eq!(session.advance(Event::Status(DXGI_ERROR_INVALID_CALL)), Action::ReleaseResource);
    assert_eq!(session.advance(Event::Done), Action::ReleaseTexture);
    assert_eq!(session.advance(Event::Done), Action::Fail(CaptureError::InvalidRequest));
    assert_eq!(session.phase(), Phase::Idle);
    let held = session.control().held;
    assert!(!held.resource && !held.texture && !held.staging && !held.surface);
}

#[test]
fn texture_query_failure_gives_up_the_resource() {
    let mut session = opened(false, false);
    session.frame(0);
    session.advance(Event::Done);
    session.advance(acquired(quiet()));
    assert_eq!(session.advance(Event::Status(-1)), Action::ReleaseResource);
    assert_eq!(session.advance(Event::Done), Action::Fail(CaptureError::Unclassified));
}

#[test]
fn surface_query_failure_gives_up_all_three() {
    let mut session = opened(false, false);
    session.frame(0);
    session.advance(Event::Done);
    session.advance(acquired(quiet()));
    session.advance(Event::Status(S_OK));
    session.advance(Event::Status(S_OK));
    session.advance(Event::Done);
    assert_eq!(session.advance(Event::Status(E_ACCESSDENIED)), Action::ReleaseResource);
    assert_eq!(session.advance(Event::Done), Action::ReleaseTexture);
    assert_eq!(session.advance(Event::Done), Action::ReleaseStaging);
    assert_eq!(session.advance(Event::Done), Action::Fail(CaptureError::PermissionDenied));
}

#[test]
fn surface_map_failure_keeps_the_surface_for_the_next_pull() {
    let mut native = Native::new(16);
    let mut session = opened(false, false);
    let mut action = session.frame(0);
    while action != (Action::MapSurface { flags: MAP_READ }) {
        let event = native.perform(action, false);
        action = session.advance(event);
    }
    assert_eq!(
        session.advance(Event::Mapped { status: DXGI_ERROR_ACCESS_LOST, pitch: 0 }),
        Action::Fail(CaptureError::SessionInvalidated)
    );
    assert_eq!(session.phase(), Phase::Idle);
    assert!(session.control().held.surface && !session.control().held.surface_mapped);
    assert_eq!(session.frame(0), Action::UnmapSurface);
}

#[test]
fn pointer_report_moves_the_cursor_before_the_pixels() {
    let mut session = Capturer::new(&display(100, 50, 4, 2), true).unwrap();
    let mut native = Native::new(16);
    let first = session.open();
    native.run(&mut session, first, true);
    session.frame(0);
    session.advance(Event::Done);
    session.advance(Event::Done);
    let info = FrameInfo {
        pointer: PointerReport { x: 3, y: 1, visible: true, time_stamp: 77 },
        shape_buffer_size: 0,
    };
    assert_eq!(session.advance(acquired(info)), Action::MapDesktopSurface);
    assert_eq!(session.cursor().position(), (103, 51));
    assert!(session.cursor().visible());
    assert_eq!(session.cursor().time_stamp(), 77);
    assert_eq!(session.advance(Event::Mapped { status: S_OK, pitch: 16 }), Action::ReleaseResource);
    assert_eq!(session.advance(Event::Done), Action::Expose { len: 32, draw_cursor: true });
}

#[test]
fn zero_time_stamp_leaves_the_cursor() {
    let mut session = opened(true, true);
    session.frame(0);
    session.advance(Event::Done);
    session.advance(Event::Done);
    let info = FrameInfo {
        pointer: PointerReport { x: 3, y: 1, visible: true, time_stamp: 0 },
        shape_buffer_size: 64,
    };
    assert_eq!(session.advance(acquired(info)), Action::MapDesktopSurface);
    assert_eq!(session.cursor().position(), (0, 0));
    assert!(!session.cursor().visible());
    assert!(session.cursor().shape().is_empty());
}

#[test]
fn untracked_cursor_is_never_touched_nor_drawn() {
    let mut session = opened(true, false);
    session.frame(0);
    session.advance(Event::Done);
    session.advance(Event::Done);
    let info = FrameInfo {
        pointer: PointerReport { x: 3, y: 1, visible: true, time_stamp: 5 },
        shape_buffer_size: 64,
    };
    assert_eq!(session.advance(acquired(info)), Action::MapDesktopSurface);
    assert_eq!(session.cursor().position(), (0, 0));
    assert!(session.cursor().shape().is_empty());
    session.advance(Event::Mapped { status: S_OK, pitch: 16 });
    assert_eq!(session.advance(Event::Done), Action::Expose { len: 32, draw_cursor: false });
}

#[test]
fn new_shape_is_fetched_and_cached() {
    let mut session = opened(true, true);
    session.frame(0);
    session.advance(Event::Done);
    session.advance(Event::Done);
    let info = FrameInfo {
        pointer: PointerReport { x: 1, y: 1, visible: true, time_stamp: 9 },
        shape_buffer_size: 8,
    };
    assert_eq!(session.advance(acquired(info)), Action::FetchPointerShape { size: 8 });
    assert_eq!(session.cursor().shape(), &[0u8; 8][..]);
    let layout = ShapeInfo { kind: SHAPE_COLOR, width: 1, height: 1, pitch: 4, hot_x: 0, hot_y: 0 };
    assert_eq!(
        session.advance(Event::Shape { status: S_OK, bytes: vec![1, 2, 3, 255], layout }),
        Action::MapDesktopSurface
    );
    assert_eq!(session.cursor().shape(), &[1u8, 2, 3, 255, 0, 0, 0, 0][..]);
    assert_eq!(session.cursor().shape_info(), layout);
    session.advance(Event::Mapped { status: S_OK, pitch: 16 });
    assert_eq!(session.advance(Event::Done), Action::Expose { len: 32, draw_cursor: true });

    let mut frame = vec![0u8; 32];
    session.draw_cursor(&mut frame);
    let mut expected = vec![0u8; 32];
    expected[20..24].copy_from_slice(&[1, 2, 3, 255]);
    assert_eq!(frame, expected);
}

#[test]
fn shape_failure_ends_the_pull_and_gives_up_the_resource() {
    let mut session = opened(false, true);
    session.frame(0);
    session.advance(Event::Done);
    let info = FrameInfo {
        pointer: PointerReport { x: 1, y: 1, visible: true, time_stamp: 9 },
        shape_buffer_size: 8,
    };
    assert_eq!(session.advance(acquired(info)), Action::FetchPointerShape { size: 8 });
    let layout = ShapeInfo { kind: SHAPE_COLOR, width: 1, height: 1, pitch: 4, hot_x: 0, hot_y: 0 };
    assert_eq!(
        session.advance(Event::Shape { status: DXGI_ERROR_ACCESS_LOST, bytes: vec![9; 8], layout }),
        Action::ReleaseResource
    );
    assert_eq!(session.advance(Event::Done), Action::Fail(CaptureError::SessionInvalidated));
    // The position was updated and the buffer grown, the shape was not cached.
    assert_eq!(session.cursor().position(), (1, 1));
    assert_eq!(session.cursor().shape(), &[0u8; 8][..]);
    assert_eq!(session.cursor().shape_info().kind, 0);
    assert!(!session.control().held.resource);
}

#[test]
fn thousand_pulls_on_the_fast_lane_leak_nothing() {
    let mut native = Native::new(16);
    let mut session = Capturer::new(&display(0, 0, 4, 2), true).unwrap();
    let first = session.open();
    assert_eq!(native.run(&mut session, first, true), Action::Ready);
    for _ in 0..1000 {
        let first = session.frame(0);
        let end = native.run(&mut session, first, true);
        assert_eq!(end, Action::Expose { len: 32, draw_cursor: false });
        assert_eq!(session.phase(), Phase::Exposed);
        assert_eq!((native.resource, native.texture, native.staging, native.surface), (0, 0, 0, 0));
        assert_eq!((native.frames, native.desktop_maps), (1, 1));
        assert_eq!((native.device, native.context, native.duplication), (1, 1, 1));
    }
    let first = session.close();
    assert_eq!(native.run(&mut session, first, true), Action::Closed);
    assert_eq!((native.device, native.context, native.duplication), (0, 0, 0));
    assert_eq!(session.control().held, Ledger::empty());
}

#[test]
fn thousand_pulls_with_readback_leak_nothing() {
    let mut native = Native::new(16);
    native.next_frame = FrameInfo {
        pointer: PointerReport { x: 1, y: 0, visible: true, time_stamp: 1 },
        shape_buffer_size: 4,
    };
    native.shape = vec![5, 6, 7, 255];
    native.layout =
        ShapeInfo { kind: SHAPE_COLOR, width: 1, height: 1, pitch: 4, hot_x: 0, hot_y: 0 };
    let mut session = Capturer::new(&display(0, 0, 4, 2), true).unwrap();
    let first = session.open();
    assert_eq!(native.run(&mut session, first, false), Action::Ready);
    for _ in 0..1000 {
        let first = session.frame(0);
        let end = native.run(&mut session, first, false);
        assert_eq!(end, Action::Expose { len: 32, draw_cursor: true });
        assert_eq!((native.resource, native.texture, native.staging), (0, 0, 0));
        assert_eq!((native.frames, native.surface, native.surface_maps), (1, 1, 1));
        assert_eq!(session.cursor().shape().len(), 4);
    }
    let first = session.close();
    assert_eq!(native.run(&mut session, first, false), Action::Closed);
    assert_eq!(
        (native.device, native.context, native.duplication, native.surface, native.surface_maps),
        (0, 0, 0, 0, 0)
    );
}

#[test]
fn close_in_order() {
    let mut session = opened(true, false);
    assert_eq!(session.close(), Action::ReleaseDuplication);
    assert_eq!(session.advance(Event::Done), Action::ReleaseDevice);
    assert_eq!(session.advance(Event::Done), Action::ReleaseContext);
    assert_eq!(session.advance(Event::Done), Action::Closed);
    assert_eq!(session.phase(), Phase::Closed);
    assert_eq!(session.control().held, Ledger::empty());
}

#[test]
fn close_of_a_fresh_session() {
    let mut session = Capturer::new(&display(0, 0, 4, 2), false).unwrap();
    assert_eq!(session.close(), Action::Closed);
    assert_eq!(session.phase(), Phase::Closed);
}

#[test]
fn calls_out_of_turn_are_refused_and_change_nothing() {
    let refused = Action::Fail(CaptureError::InvalidRequest);
    let mut session = Capturer::new(&display(0, 0, 4, 2), false).unwrap();
    assert_eq!(session.frame(0), refused);
    assert_eq!(session.advance(Event::Done), refused);
    assert_eq!(session.phase(), Phase::Fresh);
    session.open();
    assert_eq!(session.open(), refused);
    assert_eq!(session.close(), refused);
    assert_eq!(session.advance(Event::Done), refused);
    assert_eq!(session.advance(Event::Mapped { status: S_OK, pitch: 4 }), refused);
    assert_eq!(session.phase(), Phase::CreatingDevice);

    let mut session = opened(true, false);
    assert_eq!(session.advance(acquired(quiet())), refused);
    assert_eq!(session.open(), refused);
    assert_eq!(session.phase(), Phase::Idle);
    session.frame(0);
    assert_eq!(session.frame(0), refused);
    assert_eq!(session.advance(Event::Status(S_OK)), refused);
    assert_eq!(session.phase(), Phase::UnmappingDesktop);

    let mut closed = Capturer::new(&display(0, 0, 4, 2), false).unwrap();
    closed.close();
    assert_eq!(closed.close(), refused);
    assert_eq!(closed.open(), refused);
    assert_eq!(closed.frame(0), refused);
}

#[test]
fn zero_pitch_exposes_an_empty_image() {
    let mut session = opened(true, false);
    session.frame(0);
    session.advance(Event::Done);
    session.advance(Event::Done);
    session.advance(acquired(quiet()));
    session.advance(Event::Mapped { status: S_OK, pitch: 0 });
    assert_eq!(session.advance(Event::Done), Action::Expose { len: 0, draw_cursor: false });
}

#[test]
fn length_is_height_times_pitch() {
    let wide = Display::new(
        0,
        0,
        OutputDesc {
            device_name: [0u16; 32],
            coordinates: Rect { left: 0, top: 0, right: 1, bottom: i32::MAX },
            rotation: Rotation::Identity,
        },
    );
    let mut session = Capturer::new(&wide, false).unwrap();
    let mut native = Native::new(i32::MAX);
    let first = session.open();
    native.run(&mut session, first, true);
    let first = session.frame(0);
    assert_eq!(
        native.run(&mut session, first, true),
        Action::Expose { len: i32::MAX as u64 * i32::MAX as u64, draw_cursor: false }
    );
}

#[test]
fn pointer_reports_count_only_when_tracked_and_stamped() {
    let stamped = FrameInfo {
        pointer: PointerReport { x: 0, y: 0, visible: false, time_stamp: -3 },
        shape_buffer_size: 0,
    };
    let watching = opened(true, true).control();
    assert!(watching.tracking(S_OK, &stamped));
    assert!(!watching.tracking(S_OK, &quiet()));
    assert!(!watching.tracking(DXGI_ERROR_WAIT_TIMEOUT, &stamped));
    let blind = opened(true, false).control();
    assert!(!blind.tracking(S_OK, &stamped));
}

#[test]
fn control_steps_without_a_session() {
    let control = opened(false, false).control();
    let (waiting, first) = control.pull(9);
    assert_eq!(first, Action::ReleaseFrame);
    assert_eq!(waiting.timeout, 9);
    let (asking, second) = waiting.advance(&Event::Done, false);
    assert_eq!(second, Action::AcquireFrame { timeout: 9 });
    assert_eq!(asking.phase, Phase::Acquiring);
    let (closing, third) = control.close();
    assert_eq!(third, Action::ReleaseDuplication);
    assert_eq!(closing.phase, Phase::ClosingDuplication);
    let (same, refused) = control.open();
    assert_eq!(refused, Action::Fail(CaptureError::InvalidRequest));
    assert_eq!(same, control);
}

#[test]
fn negative_pitch_fails_the_pull() {
    let mut session = opened(true, false);
    session.frame(0);
    session.advance(Event::Done);
    session.advance(Event::Done);
    session.advance(acquired(quiet()));
    assert_eq!(session.advance(Event::Mapped { status: S_OK, pitch: -16 }), Action::ReleaseResource);
    assert_eq!(session.advance(Event::Done), Action::Fail(CaptureError::Unclassified));
    assert_eq!(session.phase(), Phase::Idle);
    assert_eq!(session.len(), 0);

    let mut native = Native::new(16);
    let mut session = opened(false, false);
    let mut action = session.frame(0);
    while action != (Action::MapSurface { flags: MAP_READ }) {
        let event = native.perform(action, false);
        action = session.advance(event);
    }
    assert_eq!(
        session.advance(Event::Mapped { status: S_OK, pitch: -1 }),
        Action::Fail(CaptureError::Unclassified)
    );
    assert_eq!(session.frame(0), Action::UnmapSurface);
}
