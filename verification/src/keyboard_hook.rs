//! The lifecycle of the global keyboard hook and what its callback decides.
//!
//! The embedding program owns the thread that pumps messages and makes the
//! system calls. It asks here whether a hook may be started or stopped,
//! reports how the installation went, and hands every raw keyboard message
//! to the callback's decision, which feeds the double tap detector.

use crate::error::ServiceError;
use crate::gesture::DetectorContext;
use crate::gesture::DoubleCtrlDetector;
use crate::gesture::KeyEvent;
use crate::gesture::key_event;
use vstd::prelude::*;

verus! {

/// Keyboard messages of the low level hook.
pub const WM_KEYDOWN: u32 = 0x0100;

pub const WM_KEYUP: u32 = 0x0101;

pub const WM_SYSKEYDOWN: u32 = 0x0104;

pub const WM_SYSKEYUP: u32 = 0x0105;

/// An installed hook: the handle that the system gave, the thread that
/// pumps its messages, and when it was installed.
#[derive(Debug, Clone, Copy, PartialEq, Eq, Structural)]
pub struct HookRegistration {
    pub handle: isize,
    pub owner_thread: u32,
    pub installed_at_ms: u64,
}

/// Where the hook stands.
#[derive(Debug, Clone, Copy, PartialEq, Eq, Structural)]
pub enum HookPhase {
    /// No hook, and none on its way.
    Inactive,
    /// A start was granted; the installation has not been reported yet.
    Installing,
    /// The hook is installed.
    Active(HookRegistration),
}

/// What the callback tells the embedding program: whether to send one
/// signal, and whether to pass the message on to the next hook.
#[derive(Debug, Clone, Copy, PartialEq, Eq, Structural)]
pub struct HookVerdict {
    pub signal: bool,
    pub forward: bool,
}

/// The mathematical value of a [`HookState`].
pub struct HookModel {
    pub phase: HookPhase,
    pub detector: DetectorContext,
}

/// Whether a keyboard message is a press: `WM_KEYDOWN` or `WM_SYSKEYDOWN`.
/// Every other message counts as a release.
pub open spec fn is_keydown_message(w_param: usize) -> bool {
    w_param == WM_KEYDOWN || w_param == WM_SYSKEYDOWN
}

/// The key event that a raw message carries, if it carries one: the hook
/// code is not negative and the key data could be read.
pub open spec fn decoded(n_code: i32, w_param: usize, vk_code: Option<u32>, timestamp_ms: u64)
    -> Option<KeyEvent> {
    match vk_code {
        Some(vk) => if n_code >= 0 {
            Some(key_event(vk, is_keydown_message(w_param), timestamp_ms))
        } else {
            None
        },
        None => None,
    }
}

impl HookModel {
    /// What `start_hook` does.
    pub open spec fn on_start(self) -> (Self, Result<(), ServiceError>) {
        if self.phase == HookPhase::Inactive {
            (
                HookModel { phase: HookPhase::Installing, detector: self.detector.reset() },
                Ok(()),
            )
        } else {
            (self, Err(ServiceError::AlreadyInitialized))
        }
    }

    /// What `hook_installed` does. A handle of zero is the system's refusal.
    pub open spec fn on_installed(self, registration: HookRegistration) -> (
        Self,
        Result<HookRegistration, ServiceError>,
    ) {
        if self.phase != HookPhase::Installing {
            (self, Err(ServiceError::NotRunning))
        } else if registration.handle == 0 {
            (HookModel { phase: HookPhase::Inactive, ..self }, Err(ServiceError::InstallationFailed))
        } else {
            (HookModel { phase: HookPhase::Active(registration), ..self }, Ok(registration))
        }
    }

    /// What `stop_hook` does.
    pub open spec fn on_stop(self) -> (Self, Result<HookRegistration, ServiceError>) {
        match self.phase {
            HookPhase::Active(registration) => (
                HookModel { phase: HookPhase::Inactive, ..self },
                Ok(registration),
            ),
            _ => (self, Err(ServiceError::NotRunning)),
        }
    }

    /// What the callback does with a message that carries `event`, or none.
    pub open spec fn on_message(self, event: Option<KeyEvent>) -> (Self, HookVerdict) {
        match event {
            Some(e) => if self.phase == HookPhase::Inactive {
                (self, HookVerdict { signal: false, forward: true })
            } else {
                (
                    HookModel { detector: self.detector.step(e), ..self },
                    HookVerdict { signal: self.detector.fires(e), forward: true },
                )
            },
            None => (self, HookVerdict { signal: false, forward: true }),
        }
    }
}

/// The one keyboard hook of the process and the detector that it feeds.
pub struct HookState {
    phase: HookPhase,
    detector: DoubleCtrlDetector,
}

impl View for HookState {
    type V = HookModel;

    closed spec fn view(&self) -> HookModel {
        HookModel { phase: self.phase, detector: self.detector@ }
    }
}

impl HookState {
    /// No hook, and an idle detector with the standard window.
    pub fn new() -> (state: Self)
        ensures
            state@.phase == HookPhase::Inactive,
            state@.detector == DetectorContext::idle(crate::gesture::DOUBLE_CTRL_TIMEOUT_MS),
    {
        HookState { phase: HookPhase::Inactive, detector: DoubleCtrlDetector::new() }
    }

    /// Where the hook stands.
    pub fn phase(&self) -> (phase: HookPhase)
        ensures
            phase == self@.phase,
    {
        self.phase
    }

    /// The installed hook, if there is one.
    pub fn registration(&self) -> (registration: Option<HookRegistration>)
        ensures
            registration == match self@.phase {
                HookPhase::Active(r) => Some(r),
                _ => None,
            },
    {
        match self.phase {
            HookPhase::Active(r) => Some(r),
            _ => None,
        }
    }

    /// The detector that the hook feeds.
    pub fn detector(&self) -> (detector: &DoubleCtrlDetector)
        ensures
            detector@ == self@.detector,
    {
        &self.detector
    }

    /// Reports how the installation went. With a handle other than zero the
    /// hook is active; with zero the start has failed and nothing of it is
    /// left.
    pub fn hook_installed(&mut self, registration: HookRegistration) -> (result: Result<
        HookRegistration,
        ServiceError,
    >)
        ensures
            (final(self)@, result) == old(self)@.on_installed(registration),
    {
        match self.phase {
            HookPhase::Installing => {
                if registration.handle == 0 {
                    self.phase = HookPhase::Inactive;
                    Err(ServiceError::InstallationFailed)
                } else {
                    self.phase = HookPhase::Active(registration);
                    Ok(registration)
                }
            },
            _ => Err(ServiceError::NotRunning),
        }
    }

    /// The callback's decision on a raw message that was stamped with
    /// `timestamp_ms`. `vk_code` is `None` where the message had no key data
    /// to read. The message is always passed on.
    pub fn handle_message(
        &mut self,
        n_code: i32,
        w_param: usize,
        vk_code: Option<u32>,
        timestamp_ms: u64,
    ) -> (verdict: HookVerdict)
        ensures
            (final(self)@, verdict) == old(self)@.on_message(
                decoded(n_code, w_param, vk_code, timestamp_ms),
            ),
            verdict.forward,
    {
        match decode_key_event(n_code, w_param, vk_code, timestamp_ms) {
            Some(event) => {
                match self.phase {
                    HookPhase::Inactive => HookVerdict { signal: false, forward: true },
                    _ => {
                        let signal = self.detector.handle_event(event);
                        HookVerdict { signal, forward: true }
                    },
                }
            },
            None => HookVerdict { signal: false, forward: true },
        }
    }
}

/// Reads a raw keyboard message: the key event that it carries, or `None`
/// where the hook code is negative or there was no key data.
pub fn decode_key_event(n_code: i32, w_param: usize, vk_code: Option<u32>, timestamp_ms: u64) -> (event:
    Option<KeyEvent>)
    ensures
        event == decoded(n_code, w_param, vk_code, timestamp_ms),
{
    if n_code < 0 {
        return None;
    }
    match vk_code {
        Some(vk) => {
            let message: u64 = w_param as u64;
            let is_keydown = message == WM_KEYDOWN as u64 || message == WM_SYSKEYDOWN as u64;
            Some(KeyEvent { vk_code: vk, is_keydown, timestamp_ms })
        },
        None => None,
    }
}

/// Asks for the hook to be started. While one is active or on its way the
/// request is turned down with `AlreadyInitialized` and nothing changes.
/// Else the detector starts afresh and the hook is `Installing`: the caller
/// installs it and reports with [`HookState::hook_installed`].
pub fn start_hook(state: &mut HookState) -> (result: Result<(), ServiceError>)
    ensures
        (final(state)@, result) == old(state)@.on_start(),
{
    match state.phase {
        HookPhase::Inactive => {
            state.detector.reset();
            state.phase = HookPhase::Installing;
            Ok(())
        },
        _ => Err(ServiceError::AlreadyInitialized),
    }
}

/// Asks for the hook to be stopped. An active hook becomes inactive and its
/// registration is handed out, for the caller to tell the owner thread to
/// leave its message loop and to uninstall the handle. With no active hook
/// the answer is `NotRunning` and nothing changes.
pub fn stop_hook(state: &mut HookState) -> (result: Result<HookRegistration, ServiceError>)
    ensures
        (final(state)@, result) == old(state)@.on_stop(),
{
    match state.phase {
        HookPhase::Active(registration) => {
            state.phase = HookPhase::Inactive;
            Ok(registration)
        },
        _ => Err(ServiceError::NotRunning),
    }
}

/// The callback of the hook, on a message as it arrives: the message is
/// stamped with the detector's clock and decided as by
/// [`HookState::handle_message`] for that stamp. One signal is due exactly
/// when the detector fired; the message is always passed on.
pub fn low_level_keyboard_proc(
    state: &mut HookState,
    n_code: i32,
    w_param: usize,
    vk_code: Option<u32>,
) -> (verdict: HookVerdict)
    ensures
        exists|timestamp_ms: u64|
            (final(state)@, verdict) == old(state)@.on_message(
                #[trigger] decoded(n_code, w_param, vk_code, timestamp_ms),
            ),
        verdict.forward,
        final(state)@.phase == old(state)@.phase,
{
    let timestamp_ms = state.detector.clock_ms();
    let verdict = state.handle_message(n_code, w_param, vk_code, timestamp_ms);
    assert((state@, verdict) == old(state)@.on_message(
        decoded(n_code, w_param, vk_code, timestamp_ms),
    ));
    verdict
}

/// A second start is turned down for as long as the first has not been
/// stopped or failed, and a failed installation leaves nothing behind: the
/// next start is granted.
pub proof fn lemma_single_registration(model: HookModel, registration: HookRegistration)
    requires
        model.phase == HookPhase::Inactive,
    ensures
        model.on_start().1 is Ok,
        model.on_start().0.on_start().1 == Err::<(), ServiceError>(
            ServiceError::AlreadyInitialized,
        ),
        registration.handle != 0 ==> model.on_start().0.on_installed(registration).0.on_start().1
            == Err::<(), ServiceError>(ServiceError::AlreadyInitialized),
        registration.handle != 0 ==> model.on_start().0.on_installed(
            registration,
        ).0.on_stop().0.on_start().1 is Ok,
        registration.handle == 0 ==> model.on_start().0.on_installed(registration).0.phase
            == HookPhase::Inactive,
{
}

} // verus!
