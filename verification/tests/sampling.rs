use refast::color::Color;
use refast::color::OutputFormat;
use refast::color::CLR_INVALID;
use refast::color_picker::mouse_hook_proc;
use refast::color_picker::pick_color_from_screen;
use refast::color_picker::warmup_color_picker;
use refast::color_picker::ColorPickerService;
use refast::error::ServiceError;
use refast::overlay::border_rects;
use refast::overlay::center_mark;
use refast::overlay::crosshair_rects;
use refast::overlay::text_origins;
use refast::overlay::window_rect;
use refast::overlay::Rect;
use refast::sampling::ClipboardCopy;
use refast::sampling::Frame;
use refast::sampling::NextAction;
use refast::sampling::Outcome;
use refast::sampling::PixelSample;
use refast::sampling::Point;
use refast::sampling::SamplingSession;
use refast::sampling::SessionPhase;
use refast::sampling::SessionStep;
use refast::sampling::TickInput;

const RED: u32 = 0x0000_00FF;

fn at(x: i32, y: i32, colorref: u32) -> Option<PixelSample> {
    Some(PixelSample { pos: Point { x, y }, colorref })
}

fn quiet(sample: Option<PixelSample>) -> TickInput {
    TickInput {
        cancel_requested: false,
        escape_down: false,
        toggle_down: false,
        copy_down: false,
        primary_down: false,
        sample,
    }
}

fn running() -> ColorPickerService {
    let mut service = ColorPickerService::new();
    let step = pick_color_from_screen(&mut service).unwrap();
    assert_eq!(step.next, NextAction::InstallGuard);
    let step = service.guard_installed(true).unwrap();
    assert_eq!(step.next, NextAction::Tick { after_ms: 0 });
    service
}

fn exit_of(step: SessionStep) -> (Outcome, bool, bool) {
    match step.next {
        NextAction::Exit { outcome, release_overlay, remove_guard } => {
            (outcome, release_overlay, remove_guard)
        }
        other => panic!("not an exit: {:?}", other),
    }
}

#[test]
fn a_pick_begins_in_installing() {
    let mut service = ColorPickerService::new();
    assert!(!service.is_picking());
    let step = pick_color_from_screen(&mut service).unwrap();
    assert_eq!(
        step,
        SessionStep { create_overlay: false, copy: None, frame: None, next: NextAction::InstallGuard }
    );
    assert!(service.is_picking());
    let session = service.session.unwrap();
    assert_eq!(session, SamplingSession::new());
    assert_eq!(session.phase, SessionPhase::Installing);
    assert_eq!(session.output_format, OutputFormat::Rgb);
    assert_eq!(session.frame_count, 0);
    assert!(!session.overlay_created);
}

#[test]
fn a_second_pick_is_turned_down() {
    let mut service = running();
    let before = service;
    assert_eq!(pick_color_from_screen(&mut service), Err(ServiceError::AlreadyInitialized));
    assert_eq!(service, before);
}

#[test]
fn failed_guard_installation_ends_the_pick_with_nothing_to_release() {
    let mut service = ColorPickerService::new();
    pick_color_from_screen(&mut service).unwrap();
    let step = service.guard_installed(false).unwrap();
    assert_eq!(
        exit_of(step),
        (Outcome::Error(ServiceError::InstallationFailed), false, false)
    );
    assert!(!service.is_picking());
    assert!(pick_color_from_screen(&mut service).is_ok());
}

#[test]
fn steps_without_a_session_are_not_running() {
    let mut service = ColorPickerService::new();
    assert_eq!(service.tick(quiet(at(0, 0, RED))), Err(ServiceError::NotRunning));
    assert_eq!(service.guard_installed(true), Err(ServiceError::NotRunning));
    assert_eq!(service.commit(at(0, 0, RED)), Err(ServiceError::NotRunning));
    assert_eq!(service.poll_release(false), Err(ServiceError::NotRunning));
    assert_eq!(service.overlay_created(), Err(ServiceError::NotRunning));
    assert_eq!(service, ColorPickerService::new());
}

#[test]
fn steps_out_of_turn_are_not_running() {
    let mut service = ColorPickerService::new();
    pick_color_from_screen(&mut service).unwrap();
    let before = service;
    assert_eq!(service.tick(quiet(at(0, 0, RED))), Err(ServiceError::NotRunning));
    assert_eq!(service.overlay_created(), Err(ServiceError::NotRunning));
    assert_eq!(service, before);
    let mut service = running();
    let before = service;
    assert_eq!(service.guard_installed(true), Err(ServiceError::NotRunning));
    assert_eq!(service.commit(at(0, 0, RED)), Err(ServiceError::NotRunning));
    assert_eq!(service.poll_release(false), Err(ServiceError::NotRunning));
    assert_eq!(service, before);
}

#[test]
fn cancellation_exits_within_one_tick_and_releases_everything() {
    for ticks_before in 0..8u32 {
        let mut service = running();
        for _ in 0..ticks_before {
            let step = service.tick(quiet(at(5, 5, RED))).unwrap();
            if step.create_overlay {
                service.overlay_created().unwrap();
            }
        }
        let had_overlay = service.session.unwrap().overlay_created;
        assert_eq!(had_overlay, ticks_before >= 4);
        let mut input = quiet(at(5, 5, RED));
        input.cancel_requested = true;
        input.primary_down = true;
        input.copy_down = true;
        let step = service.tick(input).unwrap();
        assert!(!step.create_overlay);
        assert_eq!(step.copy, None);
        assert_eq!(step.frame, None);
        assert_eq!(exit_of(step), (Outcome::Cancelled, had_overlay, true));
        assert!(!service.is_picking());
        assert_eq!(service.tick(quiet(at(5, 5, RED))), Err(ServiceError::NotRunning));
    }
}

#[test]
fn escape_cancels() {
    let mut service = running();
    let mut input = quiet(at(1, 2, RED));
    input.escape_down = true;
    let step = service.tick(input).unwrap();
    assert_eq!(exit_of(step), (Outcome::Cancelled, false, true));
    assert!(!service.is_picking());
}

#[test]
fn overlay_is_asked_for_once_after_the_debounce() {
    let mut service = running();
    for tick in 1..=3u32 {
        let step = service.tick(quiet(at(10, 10, RED))).unwrap();
        assert!(!step.create_overlay, "tick {}", tick);
        assert_eq!(step.frame, None);
        assert_eq!(step.next, NextAction::Tick { after_ms: 16 });
        assert_eq!(service.session.unwrap().frame_count, tick);
    }
    let step = service.tick(quiet(at(10, 10, RED))).unwrap();
    assert!(step.create_overlay);
    assert!(step.frame.is_some());
    service.overlay_created().unwrap();
    assert!(service.session.unwrap().overlay_created);
    for _ in 0..5 {
        let step = service.tick(quiet(at(10, 10, RED))).unwrap();
        assert!(!step.create_overlay);
        assert!(step.frame.is_some());
    }
}

#[test]
fn overlay_is_asked_for_again_until_it_is_there() {
    let mut service = running();
    for _ in 0..3 {
        service.tick(quiet(at(10, 10, RED))).unwrap();
    }
    for _ in 0..3 {
        let step = service.tick(quiet(at(10, 10, RED))).unwrap();
        assert!(step.create_overlay);
    }
}

#[test]
fn format_toggles_on_the_rising_edge_only() {
    let mut service = running();
    let mut held = quiet(at(0, 0, RED));
    held.toggle_down = true;
    service.tick(quiet(at(0, 0, RED))).unwrap();
    assert_eq!(service.session.unwrap().output_format, OutputFormat::Rgb);
    service.tick(held).unwrap();
    assert_eq!(service.session.unwrap().output_format, OutputFormat::Hex);
    for _ in 0..10 {
        service.tick(held).unwrap();
        assert_eq!(service.session.unwrap().output_format, OutputFormat::Hex);
    }
    service.tick(quiet(at(0, 0, RED))).unwrap();
    assert_eq!(service.session.unwrap().output_format, OutputFormat::Hex);
    service.tick(held).unwrap();
    assert_eq!(service.session.unwrap().output_format, OutputFormat::Rgb);
}

#[test]
fn copy_writes_rgb_then_upper_case_hex_after_toggle() {
    let mut service = running();
    let mut copy = quiet(at(3, 4, RED));
    copy.copy_down = true;
    let step = service.tick(copy).unwrap();
    let text = step.copy.unwrap().text();
    assert_eq!(text, "rgb(255, 0, 0)");
    assert_eq!(step.next, NextAction::Tick { after_ms: 16 });
    assert!(service.is_picking());

    let mut toggle = quiet(at(3, 4, RED));
    toggle.toggle_down = true;
    let step = service.tick(toggle).unwrap();
    assert_eq!(step.copy, None);

    let step = service.tick(copy).unwrap();
    assert_eq!(
        step.copy,
        Some(ClipboardCopy { color: Color { r: 255, g: 0, b: 0 }, format: OutputFormat::Hex })
    );
    assert_eq!(step.copy.unwrap().text(), "#FF0000");
    assert!(service.is_picking());
}

#[test]
fn copy_fires_on_the_rising_edge_only() {
    let mut service = running();
    let mut copy = quiet(at(3, 4, RED));
    copy.copy_down = true;
    assert!(service.tick(copy).unwrap().copy.is_some());
    assert!(service.tick(copy).unwrap().copy.is_none());
    assert!(service.tick(quiet(at(3, 4, RED))).unwrap().copy.is_none());
    assert!(service.tick(copy).unwrap().copy.is_some());
}

#[test]
fn toggle_and_copy_in_one_tick_copy_in_the_new_format() {
    let mut service = running();
    let mut input = quiet(at(3, 4, 0x0012_3456));
    input.copy_down = true;
    input.toggle_down = true;
    let step = service.tick(input).unwrap();
    assert_eq!(step.copy.unwrap().text(), "#563412");
}

#[test]
fn a_tick_records_the_sample() {
    let mut service = running();
    service.tick(quiet(at(-7, 1200, 0x0012_3456))).unwrap();
    let session = service.session.unwrap();
    assert_eq!(session.cursor_pos, Point { x: -7, y: 1200 });
    assert_eq!(session.sampled_color, Color { r: 0x56, g: 0x34, b: 0x12 });
    assert_eq!(session.phase, SessionPhase::Running);
}

#[test]
fn failed_pointer_read_ends_with_read_failure() {
    let mut service = running();
    for _ in 0..4 {
        if service.tick(quiet(at(1, 1, RED))).unwrap().create_overlay {
            service.overlay_created().unwrap();
        }
    }
    let step = service.tick(quiet(None)).unwrap();
    assert_eq!(exit_of(step), (Outcome::Error(ServiceError::ReadFailure), true, true));
    assert_eq!(step.copy, None);
    assert!(!service.is_picking());
}

#[test]
fn failed_pixel_read_ends_with_read_failure() {
    let mut service = running();
    let mut input = quiet(at(1, 1, CLR_INVALID));
    input.copy_down = true;
    let step = service.tick(input).unwrap();
    assert_eq!(exit_of(step), (Outcome::Error(ServiceError::ReadFailure), false, true));
    assert_eq!(step.copy, None);
    assert!(!service.is_picking());
}

#[test]
fn commit_on_red_returns_lower_case_hex() {
    let mut service = running();
    let mut press = quiet(at(100, 200, 0x00FF_FFFF));
    press.primary_down = true;
    let step = service.tick(press).unwrap();
    assert_eq!(step.next, NextAction::Resample);
    assert_eq!(service.session.unwrap().phase, SessionPhase::Resampling);

    let step = service.commit(at(101, 200, RED)).unwrap();
    assert_eq!(step.next, NextAction::PollRelease { after_ms: 0 });
    assert_eq!(service.session.unwrap().phase, SessionPhase::AwaitingRelease);
    assert_eq!(service.session.unwrap().sampled_color, Color { r: 255, g: 0, b: 0 });
    assert_eq!(service.session.unwrap().cursor_pos, Point { x: 101, y: 200 });

    let step = service.poll_release(true).unwrap();
    assert_eq!(step.next, NextAction::PollRelease { after_ms: 10 });
    assert!(service.is_picking());
    let step = service.poll_release(true).unwrap();
    assert_eq!(step.next, NextAction::PollRelease { after_ms: 10 });

    let step = service.poll_release(false).unwrap();
    let (outcome, release_overlay, remove_guard) = exit_of(step);
    assert_eq!(outcome, Outcome::Committed(Color { r: 255, g: 0, b: 0 }));
    assert!(!release_overlay);
    assert!(remove_guard);
    assert_eq!(outcome.into_result(), Ok(Some("#ff0000".to_string())));
    assert!(!service.is_picking());
}

#[test]
fn commit_releases_the_overlay_that_was_created() {
    let mut service = running();
    for _ in 0..4 {
        if service.tick(quiet(at(1, 1, RED))).unwrap().create_overlay {
            service.overlay_created().unwrap();
        }
    }
    let mut press = quiet(at(1, 1, RED));
    press.primary_down = true;
    service.tick(press).unwrap();
    service.commit(at(1, 1, 0x00AB_CDEF)).unwrap();
    let step = service.poll_release(false).unwrap();
    let (outcome, release_overlay, remove_guard) = exit_of(step);
    assert_eq!(outcome.into_result(), Ok(Some("#efcdab".to_string())));
    assert!(release_overlay);
    assert!(remove_guard);
}

#[test]
fn failed_second_reading_ends_with_read_failure() {
    let mut press = quiet(at(1, 1, RED));
    press.primary_down = true;
    let mut service = running();
    service.tick(press).unwrap();
    let step = service.commit(None).unwrap();
    assert_eq!(exit_of(step), (Outcome::Error(ServiceError::ReadFailure), false, true));
    assert!(!service.is_picking());

    let mut service = running();
    service.tick(press).unwrap();
    let step = service.commit(at(1, 1, CLR_INVALID)).unwrap();
    assert_eq!(exit_of(step).0, Outcome::Error(ServiceError::ReadFailure));
}

#[test]
fn outcomes_as_results() {
    assert_eq!(Outcome::Cancelled.into_result(), Ok(None));
    assert_eq!(
        Outcome::Error(ServiceError::ReadFailure).into_result(),
        Err(ServiceError::ReadFailure)
    );
    assert_eq!(
        Outcome::Committed(Color { r: 1, g: 2, b: 3 }).into_result(),
        Ok(Some("#010203".to_string()))
    );
}

#[test]
fn tick_counter_stops_at_its_largest_value() {
    let mut session = SamplingSession::new();
    session.phase = SessionPhase::Running;
    session.frame_count = u32::MAX;
    let (after, step) = session.tick(quiet(at(0, 0, RED)));
    assert_eq!(after.unwrap().frame_count, u32::MAX);
    assert!(step.create_overlay);
}

#[test]
fn warm_up_runs_once() {
    let mut service = ColorPickerService::new();
    assert!(warmup_color_picker(&mut service));
    assert!(!warmup_color_picker(&mut service));
    assert!(!warmup_color_picker(&mut service));
    assert!(service.warmed_up);
    assert!(!service.is_picking());
}

#[test]
fn mouse_guard_swallows_secondary_and_middle_buttons_while_picking() {
    for message in [0x0204usize, 0x0205, 0x0207, 0x0208] {
        assert!(mouse_hook_proc(0, true, message));
        assert!(!mouse_hook_proc(0, false, message));
        assert!(!mouse_hook_proc(-1, true, message));
    }
    for message in [0x0201usize, 0x0202, 0x0200, 0x020A, 0x0203, 0x0206, 0] {
        assert!(!mouse_hook_proc(0, true, message));
    }
}

#[test]
fn frame_places_the_window_beside_the_pointer() {
    let frame = Frame {
        cursor: Point { x: 500, y: 300 },
        color: Color { r: 255, g: 0, b: 0 },
        format: OutputFormat::Rgb,
    };
    assert_eq!(frame.window_pos(), Point { x: 530, y: 330 });
    assert_eq!(frame.capture_origin(), Point { x: 490, y: 290 });
    assert_eq!(frame.coord_text(), "坐标: (500, 300)");
    assert_eq!(frame.color_text(), "RGB: (255, 0, 0)");
    let frame = Frame { format: OutputFormat::Hex, ..frame };
    assert_eq!(frame.color_text(), "HEX: #FF0000");
}

#[test]
fn frame_positions_stay_in_range() {
    let frame = Frame {
        cursor: Point { x: i32::MAX, y: i32::MIN },
        color: Color { r: 0, g: 0, b: 0 },
        format: OutputFormat::Hex,
    };
    assert_eq!(frame.window_pos(), Point { x: i32::MAX, y: i32::MIN + 30 });
    assert_eq!(frame.capture_origin(), Point { x: i32::MAX - 10, y: i32::MIN });
    assert_eq!(frame.coord_text(), "坐标: (2147483647, -2147483648)");
}

#[test]
fn overlay_layout() {
    assert_eq!(window_rect(), Rect { left: 0, top: 0, right: 280, bottom: 320 });
    assert_eq!(
        border_rects(),
        [
            Rect { left: 38, top: 38, right: 242, bottom: 40 },
            Rect { left: 38, top: 240, right: 242, bottom: 242 },
            Rect { left: 38, top: 38, right: 40, bottom: 242 },
            Rect { left: 240, top: 38, right: 242, bottom: 242 },
        ]
    );
    assert_eq!(
        crosshair_rects(),
        [
            Rect { left: 125, top: 139, right: 137, bottom: 141 },
            Rect { left: 143, top: 139, right: 155, bottom: 141 },
            Rect { left: 139, top: 125, right: 141, bottom: 137 },
            Rect { left: 139, top: 143, right: 141, bottom: 155 },
        ]
    );
    assert_eq!(center_mark(), Rect { left: 139, top: 139, right: 141, bottom: 141 });
    assert_eq!(
        text_origins(),
        [
            Point { x: 15, y: 255 },
            Point { x: 15, y: 277 },
            Point { x: 15, y: 304 },
            Point { x: 15, y: 326 },
        ]
    );
}

#[test]
fn abandoning_a_pick_releases_what_it_held() {
    let mut service = running();
    for _ in 0..4 {
        if service.tick(quiet(at(1, 1, RED))).unwrap().create_overlay {
            service.overlay_created().unwrap();
        }
    }
    let step = service.abandon(ServiceError::NotRunning);
    assert_eq!(exit_of(step), (Outcome::Error(ServiceError::NotRunning), true, true));
    assert_eq!(step.copy, None);
    assert_eq!(step.frame, None);
    assert!(!step.create_overlay);
    assert!(!service.is_picking());
    assert!(pick_color_from_screen(&mut service).is_ok());
}

#[test]
fn abandoning_before_the_guard_is_in_place_releases_nothing() {
    let mut service = ColorPickerService::new();
    pick_color_from_screen(&mut service).unwrap();
    let step = service.abandon(ServiceError::InstallationFailed);
    assert_eq!(exit_of(step), (Outcome::Error(ServiceError::InstallationFailed), false, false));
    assert!(!service.is_picking());
}

#[test]
fn abandoning_without_a_pick_is_an_exit_with_nothing_to_release() {
    let mut service = ColorPickerService::new();
    let step = service.abandon(ServiceError::ReadFailure);
    assert_eq!(exit_of(step), (Outcome::Error(ServiceError::ReadFailure), false, false));
    assert_eq!(service, ColorPickerService::new());
}
