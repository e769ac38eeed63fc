use refast::error::ServiceError;
use refast::gesture::DoubleCtrlState;
use refast::gesture::KeyEvent;
use refast::gesture::VK_CONTROL;
use refast::gesture::VK_LCONTROL;
use refast::keyboard_hook::decode_key_event;
use refast::keyboard_hook::low_level_keyboard_proc;
use refast::keyboard_hook::start_hook;
use refast::keyboard_hook::stop_hook;
use refast::keyboard_hook::HookPhase;
use refast::keyboard_hook::HookRegistration;
use refast::keyboard_hook::HookState;
use refast::keyboard_hook::HookVerdict;
use refast::keyboard_hook::WM_KEYDOWN;
use refast::keyboard_hook::WM_KEYUP;
use refast::keyboard_hook::WM_SYSKEYDOWN;
use refast::keyboard_hook::WM_SYSKEYUP;

const DOWN: usize = WM_KEYDOWN as usize;
const UP: usize = WM_KEYUP as usize;
const QUIET: HookVerdict = HookVerdict { signal: false, forward: true };
const FIRED: HookVerdict = HookVerdict { signal: true, forward: true };

fn registration(handle: isize) -> HookRegistration {
    HookRegistration { handle, owner_thread: 77, installed_at_ms: 1234 }
}

fn active() -> HookState {
    let mut state = HookState::new();
    start_hook(&mut state).unwrap();
    state.hook_installed(registration(42)).unwrap();
    state
}

#[test]
fn new_hook_state_is_inactive() {
    let state = HookState::new();
    assert_eq!(state.phase(), HookPhase::Inactive);
    assert_eq!(state.registration(), None);
    assert_eq!(state.detector().state(), DoubleCtrlState::Idle);
    assert_eq!(state.detector().timeout_ms(), 400);
}

#[test]
fn start_then_install_makes_the_hook_active() {
    let mut state = HookState::new();
    assert_eq!(start_hook(&mut state), Ok(()));
    assert_eq!(state.phase(), HookPhase::Installing);
    assert_eq!(state.registration(), None);
    assert_eq!(state.hook_installed(registration(42)), Ok(registration(42)));
    assert_eq!(state.phase(), HookPhase::Active(registration(42)));
    assert_eq!(state.registration(), Some(registration(42)));
}

#[test]
fn second_start_is_turned_down() {
    let mut state = HookState::new();
    start_hook(&mut state).unwrap();
    assert_eq!(start_hook(&mut state), Err(ServiceError::AlreadyInitialized));
    assert_eq!(state.phase(), HookPhase::Installing);
    state.hook_installed(registration(42)).unwrap();
    assert_eq!(start_hook(&mut state), Err(ServiceError::AlreadyInitialized));
    assert_eq!(state.registration(), Some(registration(42)));
}

#[test]
fn refused_installation_leaves_nothing_behind() {
    let mut state = HookState::new();
    start_hook(&mut state).unwrap();
    assert_eq!(state.hook_installed(registration(0)), Err(ServiceError::InstallationFailed));
    assert_eq!(state.phase(), HookPhase::Inactive);
    assert_eq!(state.registration(), None);
    assert_eq!(start_hook(&mut state), Ok(()));
}

#[test]
fn installation_report_out_of_turn_is_not_running() {
    let mut state = HookState::new();
    assert_eq!(state.hook_installed(registration(42)), Err(ServiceError::NotRunning));
    assert_eq!(state.phase(), HookPhase::Inactive);
    let mut state = active();
    assert_eq!(state.hook_installed(registration(43)), Err(ServiceError::NotRunning));
    assert_eq!(state.registration(), Some(registration(42)));
}

#[test]
fn stop_hands_out_the_registration() {
    let mut state = active();
    assert_eq!(stop_hook(&mut state), Ok(registration(42)));
    assert_eq!(state.phase(), HookPhase::Inactive);
    assert_eq!(stop_hook(&mut state), Err(ServiceError::NotRunning));
    assert_eq!(start_hook(&mut state), Ok(()));
}

#[test]
fn stop_without_an_active_hook_is_not_running() {
    let mut state = HookState::new();
    assert_eq!(stop_hook(&mut state), Err(ServiceError::NotRunning));
    assert_eq!(state.phase(), HookPhase::Inactive);
    start_hook(&mut state).unwrap();
    assert_eq!(stop_hook(&mut state), Err(ServiceError::NotRunning));
    assert_eq!(state.phase(), HookPhase::Installing);
}

#[test]
fn raw_messages_are_decoded() {
    assert_eq!(
        decode_key_event(0, WM_KEYDOWN as usize, Some(0x11), 5),
        Some(KeyEvent { vk_code: 0x11, is_keydown: true, timestamp_ms: 5 })
    );
    assert_eq!(
        decode_key_event(0, WM_SYSKEYDOWN as usize, Some(0x41), 6),
        Some(KeyEvent { vk_code: 0x41, is_keydown: true, timestamp_ms: 6 })
    );
    assert_eq!(
        decode_key_event(3, WM_KEYUP as usize, Some(0x11), 7),
        Some(KeyEvent { vk_code: 0x11, is_keydown: false, timestamp_ms: 7 })
    );
    assert_eq!(
        decode_key_event(0, WM_SYSKEYUP as usize, Some(0x11), 8),
        Some(KeyEvent { vk_code: 0x11, is_keydown: false, timestamp_ms: 8 })
    );
    assert_eq!(
        decode_key_event(0, 0x0102, Some(0x11), 9),
        Some(KeyEvent { vk_code: 0x11, is_keydown: false, timestamp_ms: 9 })
    );
    assert_eq!(decode_key_event(-1, WM_KEYDOWN as usize, Some(0x11), 5), None);
    assert_eq!(decode_key_event(0, WM_KEYDOWN as usize, None, 5), None);
}

#[test]
fn double_tap_through_the_hook_signals_once() {
    let mut state = active();
    assert_eq!(state.handle_message(0, DOWN, Some(VK_CONTROL), 0), QUIET);
    assert_eq!(state.handle_message(0, UP, Some(VK_CONTROL), 50), QUIET);
    assert_eq!(state.handle_message(0, DOWN, Some(VK_LCONTROL), 200), FIRED);
    assert_eq!(state.handle_message(0, UP, Some(VK_LCONTROL), 260), QUIET);
    assert_eq!(state.detector().state(), DoubleCtrlState::Idle);
    assert_eq!(state.registration(), Some(registration(42)));
}

#[test]
fn messages_without_an_event_leave_the_detector_alone() {
    let mut state = active();
    state.handle_message(0, DOWN, Some(VK_CONTROL), 0);
    state.handle_message(0, UP, Some(VK_CONTROL), 50);
    assert_eq!(state.handle_message(-1, DOWN, Some(0x41), 60), QUIET);
    assert_eq!(state.handle_message(0, DOWN, None, 70), QUIET);
    assert_eq!(state.detector().state(), DoubleCtrlState::FirstCtrlReleased);
    assert!(!state.detector().other_key_pressed());
    assert_eq!(state.handle_message(0, DOWN, Some(VK_CONTROL), 100), FIRED);
}

#[test]
fn inactive_hook_ignores_messages() {
    let mut state = HookState::new();
    assert_eq!(state.handle_message(0, DOWN, Some(VK_CONTROL), 0), QUIET);
    assert_eq!(state.detector().state(), DoubleCtrlState::Idle);
    assert_eq!(state.detector().first_press_time(), None);
}

#[test]
fn every_message_is_passed_on() {
    let mut state = active();
    let messages = [
        (0, DOWN, Some(VK_CONTROL)),
        (0, UP, Some(VK_CONTROL)),
        (0, DOWN, Some(VK_CONTROL)),
        (-1, DOWN, Some(VK_CONTROL)),
        (0, UP, None),
        (0, DOWN, Some(0x41)),
    ];
    for (i, (n_code, w_param, vk)) in messages.iter().enumerate() {
        assert!(state.handle_message(*n_code, *w_param, *vk, i as u64).forward);
    }
}

#[test]
fn a_new_start_begins_with_a_fresh_detector() {
    let mut state = active();
    state.handle_message(0, DOWN, Some(VK_CONTROL), 0);
    state.handle_message(0, UP, Some(VK_CONTROL), 50);
    stop_hook(&mut state).unwrap();
    start_hook(&mut state).unwrap();
    assert_eq!(state.detector().state(), DoubleCtrlState::Idle);
    state.hook_installed(registration(43)).unwrap();
    assert_eq!(state.handle_message(0, DOWN, Some(VK_CONTROL), 100), QUIET);
    assert_eq!(state.detector().state(), DoubleCtrlState::FirstCtrlPressed);
}

#[test]
fn clock_stamped_callback_signals_a_quick_double_tap() {
    let mut state = active();
    assert_eq!(low_level_keyboard_proc(&mut state, 0, DOWN, Some(VK_CONTROL)), QUIET);
    assert_eq!(low_level_keyboard_proc(&mut state, 0, UP, Some(VK_CONTROL)), QUIET);
    assert_eq!(low_level_keyboard_proc(&mut state, 0, DOWN, Some(VK_CONTROL)), FIRED);
    assert_eq!(low_level_keyboard_proc(&mut state, -1, DOWN, Some(VK_CONTROL)), QUIET);
    assert_eq!(state.detector().state(), DoubleCtrlState::Idle);
}
