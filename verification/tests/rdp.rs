use winbridge::desktop::WINBRIDGE_ICON_NAME;
use winbridge::rdp::{
    build_display_control_layout, initial_desktop_size_for_layout, input_events_in_viewport,
    keyboard_events, keyval_to_scancode, should_retry_rdp_loop, viewport_to_desktop, InputRequest, KeyEvent,
    MonitorLayout, MouseButton, MouseEvent, PointerAction, PointerInput, RdpDisplayStrategy, RdpInput,
    RdpViewport, RdpVirtualDesktopLayout, RdpWindowOptions, WheelDirection, CONTROL_MASK,
};

fn desktop_viewport() -> RdpViewport {
    RdpViewport::new(0, 0, 1280, 720)
}

// The window's canvas of 640x480 shows the 1280x720 desktop letterboxed, so its point
// (320, 240) is the desktop point (640, 360).
fn canvas_center_on_desktop() -> Option<(u16, u16)> {
    Some((640, 360))
}

#[test]
fn app_mode_uses_file_dialog_sized_single_desktop_for_app_window() {
    let options = RdpWindowOptions::kakaotalk_app();

    assert_eq!(options.title, "winbridge");
    assert_eq!(options.icon_name, Some(WINBRIDGE_ICON_NAME));
    assert_eq!(options.display_strategy, RdpDisplayStrategy::StableSlots);
    assert_eq!(options.virtual_desktop_layout, None);
    assert_eq!(options.initial_desktop_size(), (960, 720));
    assert_eq!(options.initial_window_size(), (960, 720));
    assert_eq!(options.viewport, RdpViewport { left: 0, top: 0, width: 960, height: 720 });
}

#[test]
fn app_mode_can_enable_experimental_multimon_without_changing_viewport() {
    let options = RdpWindowOptions::kakaotalk_app().with_display_strategy(RdpDisplayStrategy::ExperimentalMultimon);

    assert_eq!(options.display_strategy, RdpDisplayStrategy::ExperimentalMultimon);
    assert_eq!(options.viewport, RdpViewport { left: 0, top: 0, width: 960, height: 720 });
    assert_eq!(options.virtual_desktop_layout, None);
}

#[test]
fn rdp_loop_retries_until_last_attempt() {
    assert!(should_retry_rdp_loop(1, 3));
    assert!(should_retry_rdp_loop(2, 3));
    assert!(!should_retry_rdp_loop(3, 3));
}

#[test]
fn two_horizontal_slot_layout_uses_wide_initial_desktop() {
    assert_eq!(
        initial_desktop_size_for_layout(Some(RdpVirtualDesktopLayout::TwoHorizontalSlots {
            slot_width: 1280,
            slot_height: 720,
        })),
        (2560, 720)
    );
    assert_eq!(initial_desktop_size_for_layout(None), (1280, 720));
}

#[test]
fn wide_slots_saturate_the_desktop_width() {
    assert_eq!(
        initial_desktop_size_for_layout(Some(RdpVirtualDesktopLayout::TwoHorizontalSlots {
            slot_width: 40000,
            slot_height: 720,
        })),
        (u16::MAX, 720)
    );
}

#[test]
fn display_control_layout_builds_two_horizontal_monitors() {
    let monitors =
        build_display_control_layout(RdpVirtualDesktopLayout::TwoHorizontalSlots { slot_width: 1280, slot_height: 720 });

    assert_eq!(monitors.len(), 2);
    assert!(monitors[0].primary);
    assert_eq!((monitors[0].left, monitors[0].top), (0, 0));
    assert_eq!((monitors[0].width, monitors[0].height), (1280, 720));
    assert!(!monitors[1].primary);
    assert_eq!((monitors[1].left, monitors[1].top), (1280, 0));
    assert_eq!((monitors[1].width, monitors[1].height), (1280, 720));
    assert_eq!(monitors[1], MonitorLayout { primary: false, left: 1280, top: 0, width: 1280, height: 720 });
}

#[test]
fn keyval_to_scancode_maps_ascii_and_extended_keys() {
    assert_eq!(keyval_to_scancode(u32::from('a')), Some((0x1e, false)));
    assert_eq!(keyval_to_scancode(u32::from('A')), Some((0x1e, false)));
    assert_eq!(keyval_to_scancode(u32::from('?')), Some((0x35, false)));
    assert_eq!(keyval_to_scancode(0x08), Some((0x0e, false)));
    assert_eq!(keyval_to_scancode(0xff08), Some((0x0e, false)));
    assert_eq!(keyval_to_scancode(0xff51), Some((0x4b, true)));
    assert_eq!(keyval_to_scancode(0xff31), Some((0x38, true)));
    assert_eq!(keyval_to_scancode(0xff34), Some((0x1d, true)));
}

#[test]
fn keyval_to_scancode_distinguishes_left_and_right_modifiers() {
    assert_eq!(keyval_to_scancode(0xffe1), Some((0x2a, false)));
    assert_eq!(keyval_to_scancode(0xffe2), Some((0x36, false)));
    assert_eq!(keyval_to_scancode(0xffe3), Some((0x1d, false)));
    assert_eq!(keyval_to_scancode(0xffe4), Some((0x1d, true)));
    assert_eq!(keyval_to_scancode(0xffe9), Some((0x38, false)));
    assert_eq!(keyval_to_scancode(0xffea), Some((0x38, true)));
}

#[test]
fn unknown_keyvals_fall_back_to_the_hardware_keycode() {
    assert_eq!(keyval_to_scancode(0x1234_5678), None);
    assert_eq!(
        keyboard_events(0x1234_5678, 38, 0, true),
        vec![KeyEvent { release: true, extended: false, scan_code: 30 }]
    );
    assert!(keyboard_events(0x1234_5678, 300, 0, true).is_empty());
}

#[test]
fn key_press_releases_stale_modifiers_before_backspace() {
    let events = input_events_in_viewport(
        InputRequest::KeyPress { keyval: 0xff08, keycode: 22, modifiers: 0 },
        desktop_viewport(),
    );

    assert!(events.iter().any(|event| matches!(event, RdpInput::Key(KeyEvent { release: true, scan_code: 0x1d, .. }))));
    assert!(matches!(events.last(), Some(RdpInput::Key(KeyEvent { release: false, scan_code: 0x0e, .. }))));
}

#[test]
fn key_press_preserves_current_control_modifier() {
    let events = input_events_in_viewport(
        InputRequest::KeyPress { keyval: u32::from('v'), keycode: 55, modifiers: CONTROL_MASK },
        desktop_viewport(),
    );

    assert!(!events.iter().any(|event| matches!(event, RdpInput::Key(KeyEvent { scan_code: 0x1d, .. }))));
    assert!(matches!(events.last(), Some(RdpInput::Key(KeyEvent { scan_code: 0x2f, .. }))));
}

#[test]
fn key_release_is_one_release_event() {
    let events = input_events_in_viewport(InputRequest::KeyRelease { keyval: u32::from('v'), keycode: 55 }, desktop_viewport());
    assert_eq!(events, vec![RdpInput::Key(KeyEvent { release: true, extended: false, scan_code: 0x2f })]);
}

#[test]
fn mouse_input_event_maps_to_rdp_coordinates_and_flags() {
    let events = input_events_in_viewport(
        InputRequest::Pointer { input: PointerInput::Press { button: 1 }, position: canvas_center_on_desktop() },
        desktop_viewport(),
    );

    let [RdpInput::Mouse(event)] = events.as_slice() else {
        panic!("expected one mouse event");
    };

    assert_eq!(event.action, PointerAction::Button { button: MouseButton::Left, down: true });
    assert!(matches!(event.action, PointerAction::Button { down: true, .. }));
    assert_eq!((event.x, event.y), (640, 360));
}

#[test]
fn right_mouse_input_event_maps_to_rdp_coordinates_and_flags() {
    let events = input_events_in_viewport(
        InputRequest::Pointer { input: PointerInput::Press { button: 3 }, position: canvas_center_on_desktop() },
        desktop_viewport(),
    );

    let [RdpInput::Mouse(event)] = events.as_slice() else {
        panic!("expected one right mouse event");
    };

    assert_eq!(event.action, PointerAction::Button { button: MouseButton::Right, down: true });
    assert!(matches!(event.action, PointerAction::Button { down: true, .. }));
    assert_eq!((event.x, event.y), (640, 360));
}

#[test]
fn mouse_wheel_down_maps_to_negative_vertical_wheel_event() {
    let events = input_events_in_viewport(
        InputRequest::Pointer {
            input: PointerInput::Wheel { direction: WheelDirection::Down },
            position: canvas_center_on_desktop(),
        },
        desktop_viewport(),
    );

    let [RdpInput::Mouse(event)] = events.as_slice() else {
        panic!("expected one wheel event");
    };

    assert!(matches!(event.action, PointerAction::VerticalWheel { .. }));
    assert_eq!(event.action, PointerAction::VerticalWheel { rotation_units: -120 });
    assert_eq!((event.x, event.y), (640, 360));
}

#[test]
fn mouse_wheel_up_maps_to_positive_vertical_wheel_event() {
    let events = input_events_in_viewport(
        InputRequest::Pointer {
            input: PointerInput::Wheel { direction: WheelDirection::Up },
            position: canvas_center_on_desktop(),
        },
        desktop_viewport(),
    );

    let [RdpInput::Mouse(event)] = events.as_slice() else {
        panic!("expected one wheel event");
    };

    assert!(matches!(event.action, PointerAction::VerticalWheel { .. }));
    assert_eq!(event.action, PointerAction::VerticalWheel { rotation_units: 120 });
    assert_eq!((event.x, event.y), (640, 360));
}

#[test]
fn mouse_wheel_zero_delta_is_ignored() {
    let events = input_events_in_viewport(
        InputRequest::Pointer {
            input: PointerInput::Wheel { direction: WheelDirection::Still },
            position: canvas_center_on_desktop(),
        },
        desktop_viewport(),
    );

    assert!(events.is_empty());
}

#[test]
fn canvas_to_desktop_can_target_a_virtual_monitor_viewport() {
    let viewport = RdpViewport { left: 1280, top: 0, width: 1280, height: 720 };
    assert_eq!(viewport_to_desktop(640, 360, viewport), Some((1920, 360)));
    let events = input_events_in_viewport(
        InputRequest::Pointer { input: PointerInput::Move, position: Some((640, 360)) },
        viewport,
    );
    assert_eq!(events, vec![RdpInput::Mouse(MouseEvent { action: PointerAction::Move, x: 1920, y: 360 })]);
}

#[test]
fn pointer_without_position_or_unknown_button_is_dropped() {
    assert!(input_events_in_viewport(
        InputRequest::Pointer { input: PointerInput::Move, position: None },
        desktop_viewport()
    )
    .is_empty());
    assert!(input_events_in_viewport(
        InputRequest::Pointer { input: PointerInput::Press { button: 8 }, position: Some((1, 1)) },
        desktop_viewport()
    )
    .is_empty());
    assert_eq!(viewport_to_desktop(65535, 0, RdpViewport::new(1, 0, 10, 10)), None);
}
