//! The colour picker as a service: at most one sampling session at a time.

use crate::error::ServiceError;
use crate::sampling::NextAction;
use crate::sampling::Outcome;
use crate::sampling::PixelSample;
use crate::sampling::SamplingSession;
use crate::sampling::SessionPhase;
use crate::sampling::SessionStep;
use crate::sampling::TickInput;
use crate::sampling::bare_step;
use vstd::prelude::*;

verus! {

/// Mouse messages that the guard knows.
pub const WM_LBUTTONDOWN: u32 = 0x0201;

pub const WM_LBUTTONUP: u32 = 0x0202;

pub const WM_RBUTTONDOWN: u32 = 0x0204;

pub const WM_RBUTTONUP: u32 = 0x0205;

pub const WM_MBUTTONDOWN: u32 = 0x0207;

pub const WM_MBUTTONUP: u32 = 0x0208;

/// Whether the guard keeps a mouse message from the windows below: while a
/// pick is under way, every press and release of the secondary and of the
/// middle button, and nothing else. The message is the low 32 bits of
/// `w_param`. A negative `n_code` is never held back.
pub open spec fn guard_swallows(n_code: i32, picking: bool, w_param: usize) -> bool {
    let message = w_param as int % 0x1_0000_0000;
    &&& n_code >= 0
    &&& picking
    &&& (message == WM_RBUTTONDOWN || message == WM_RBUTTONUP || message == WM_MBUTTONDOWN
        || message == WM_MBUTTONUP)
}

/// Decides for the mouse hook whether to swallow a message (`true`) or to
/// pass it on to the next hook.
pub fn mouse_hook_proc(n_code: i32, picking: bool, w_param: usize) -> (swallow: bool)
    ensures
        swallow == guard_swallows(n_code, picking, w_param),
{
    let wide: u64 = w_param as u64;
    let message: u32 = (wide % 0x1_0000_0000) as u32;
    n_code >= 0 && picking && (message == WM_RBUTTONDOWN || message == WM_RBUTTONUP || message
        == WM_MBUTTONDOWN || message == WM_MBUTTONUP)
}

/// The picker: whether its resources were warmed up, and the session that
/// is under way, if any.
#[derive(Debug, Clone, Copy, PartialEq, Eq)]
pub struct ColorPickerService {
    pub warmed_up: bool,
    pub session: Option<SamplingSession>,
}

impl ColorPickerService {
    /// The session under way, if it stands in `phase`.
    pub open spec fn session_in(self, phase: SessionPhase) -> Option<SamplingSession> {
        match self.session {
            Some(session) => if session.phase == phase {
                Some(session)
            } else {
                None
            },
            None => None,
        }
    }

    /// The service and the answer after a step of the session: the step's
    /// own, or `NotRunning` with nothing changed where no session could take
    /// it.
    pub open spec fn stepped(
        self,
        transition: Option<(Option<SamplingSession>, SessionStep)>,
    ) -> (Self, Result<SessionStep, ServiceError>) {
        match transition {
            Some((session, step)) => (ColorPickerService { session, ..self }, Ok(step)),
            None => (self, Err(ServiceError::NotRunning)),
        }
    }

    /// What `guard_installed` does.
    pub open spec fn on_guard_installed(self, installed: bool) -> (
        Self,
        Result<SessionStep, ServiceError>,
    ) {
        self.stepped(
            match self.session_in(SessionPhase::Installing) {
                Some(session) => Some(session.on_guard_installed(installed)),
                None => None,
            },
        )
    }

    /// What `tick` does.
    pub open spec fn on_tick(self, input: TickInput) -> (Self, Result<SessionStep, ServiceError>) {
        self.stepped(
            match self.session_in(SessionPhase::Running) {
                Some(session) => Some(session.on_tick(input)),
                None => None,
            },
        )
    }

    /// What `commit` does.
    pub open spec fn on_commit(self, sample: Option<PixelSample>) -> (
        Self,
        Result<SessionStep, ServiceError>,
    ) {
        self.stepped(
            match self.session_in(SessionPhase::Resampling) {
                Some(session) => Some(session.on_commit(sample)),
                None => None,
            },
        )
    }

    /// What `poll_release` does.
    pub open spec fn on_release_poll(self, primary_down: bool) -> (
        Self,
        Result<SessionStep, ServiceError>,
    ) {
        self.stepped(
            match self.session_in(SessionPhase::AwaitingRelease) {
                Some(session) => Some(session.on_release_poll(primary_down)),
                None => None,
            },
        )
    }

    /// What `overlay_created` does: a session that holds the guard takes note
    /// of its overlay.
    pub open spec fn on_overlay_created(self) -> (Self, Result<(), ServiceError>) {
        match self.session {
            Some(session) => if session.holds_guard() {
                (
                    ColorPickerService {
                        session: Some(SamplingSession { overlay_created: true, ..session }),
                        ..self
                    },
                    Ok(()),
                )
            } else {
                (self, Err(ServiceError::NotRunning))
            },
            None => (self, Err(ServiceError::NotRunning)),
        }
    }

    /// What `abandon` does: the session, if there is one, ends with `error`
    /// and gives back all that it holds; with no session the exit has
    /// nothing to release.
    pub open spec fn on_abandon(self, error: ServiceError) -> (Self, SessionStep) {
        match self.session {
            Some(session) => (
                ColorPickerService { session: None, ..self },
                session.exit(Outcome::Error(error)).1,
            ),
            None => (
                self,
                bare_step(
                    NextAction::Exit {
                        outcome: Outcome::Error(error),
                        release_overlay: false,
                        remove_guard: false,
                    },
                ),
            ),
        }
    }

    /// A picker that has done nothing yet.
    pub fn new() -> (service: Self)
        ensures
            service == (ColorPickerService { warmed_up: false, session: None }),
    {
        ColorPickerService { warmed_up: false, session: None }
    }

    /// Whether a pick is under way.
    pub fn is_picking(&self) -> (picking: bool)
        ensures
            picking == self.session is Some,
    {
        self.session.is_some()
    }

    fn settle(&mut self, transition: (Option<SamplingSession>, SessionStep)) -> (result: Result<
        SessionStep,
        ServiceError,
    >)
        ensures
            (*final(self), result) == old(self).stepped(Some(transition)),
    {
        self.session = transition.0;
        Ok(transition.1)
    }

    /// Reports whether the mouse guard could be installed.
    pub fn guard_installed(&mut self, installed: bool) -> (result: Result<
        SessionStep,
        ServiceError,
    >)
        ensures
            (*final(self), result) == old(self).on_guard_installed(installed),
    {
        match self.session {
            Some(session) => {
                if session.phase == SessionPhase::Installing {
                    self.settle(session.guard_installed(installed))
                } else {
                    Err(ServiceError::NotRunning)
                }
            },
            None => Err(ServiceError::NotRunning),
        }
    }

    /// Runs one tick of the session on what was polled for it.
    pub fn tick(&mut self, input: TickInput) -> (result: Result<SessionStep, ServiceError>)
        ensures
            (*final(self), result) == old(self).on_tick(input),
    {
        match self.session {
            Some(session) => {
                if session.phase == SessionPhase::Running {
                    self.settle(session.tick(input))
                } else {
                    Err(ServiceError::NotRunning)
                }
            },
            None => Err(ServiceError::NotRunning),
        }
    }

    /// Reports that the overlay was created.
    pub fn overlay_created(&mut self) -> (result: Result<(), ServiceError>)
        ensures
            (*final(self), result) == old(self).on_overlay_created(),
    {
        match self.session {
            Some(session) => {
                if session.phase != SessionPhase::Installing {
                    let mut session = session;
                    session.overlay_created = true;
                    self.session = Some(session);
                    Ok(())
                } else {
                    Err(ServiceError::NotRunning)
                }
            },
            None => Err(ServiceError::NotRunning),
        }
    }

    /// Hands in the second reading that a press of the primary button asked
    /// for.
    pub fn commit(&mut self, sample: Option<PixelSample>) -> (result: Result<
        SessionStep,
        ServiceError,
    >)
        ensures
            (*final(self), result) == old(self).on_commit(sample),
    {
        match self.session {
            Some(session) => {
                if session.phase == SessionPhase::Resampling {
                    self.settle(session.commit(sample))
                } else {
                    Err(ServiceError::NotRunning)
                }
            },
            None => Err(ServiceError::NotRunning),
        }
    }

    /// Ends the pick from outside, where the embedding program cannot go
    /// on: the answer is an exit with `error` that releases what the session
    /// held, and no session is left.
    pub fn abandon(&mut self, error: ServiceError) -> (step: SessionStep)
        ensures
            (*final(self), step) == old(self).on_abandon(error),
            final(self).session is None,
            step.next is Exit,
    {
        match self.session {
            Some(session) => {
                let ended = session.abandon(error);
                self.session = None;
                ended.1
            },
            None => SessionStep {
                create_overlay: false,
                copy: None,
                frame: None,
                next: NextAction::Exit {
                    outcome: Outcome::Error(error),
                    release_overlay: false,
                    remove_guard: false,
                },
            },
        }
    }

    /// Hands in a look at the primary button while its release is awaited.
    pub fn poll_release(&mut self, primary_down: bool) -> (result: Result<
        SessionStep,
        ServiceError,
    >)
        ensures
            (*final(self), result) == old(self).on_release_poll(primary_down),
    {
        match self.session {
            Some(session) => {
                if session.phase == SessionPhase::AwaitingRelease {
                    self.settle(session.poll_release(primary_down))
                } else {
                    Err(ServiceError::NotRunning)
                }
            },
            None => Err(ServiceError::NotRunning),
        }
    }
}

/// Tells whether the picker's resources are to be warmed up now: `true` the
/// first time it is asked, `false` ever after.
pub fn warmup_color_picker(service: &mut ColorPickerService) -> (run: bool)
    ensures
        run == !old(service).warmed_up,
        final(service).warmed_up,
        final(service).session == old(service).session,
{
    let run = !service.warmed_up;
    service.warmed_up = true;
    run
}

/// Begins a pick. While one is under way the request is turned down with
/// `AlreadyInitialized` and nothing changes; else a fresh session stands in
/// `Installing` and the step asks for the mouse guard.
pub fn pick_color_from_screen(service: &mut ColorPickerService) -> (result: Result<
    SessionStep,
    ServiceError,
>)
    ensures
        old(service).session is Some ==> result == Err::<SessionStep, ServiceError>(
            ServiceError::AlreadyInitialized,
        ) && *final(service) == *old(service),
        old(service).session is None ==> result == Ok::<SessionStep, ServiceError>(
            bare_step(NextAction::InstallGuard),
        ) && *final(service) == (ColorPickerService {
            session: Some(SamplingSession::initial()),
            ..*old(service)
        }),
{
    if service.session.is_some() {
        return Err(ServiceError::AlreadyInitialized);
    }
    service.session = Some(SamplingSession::new());
    Ok(
        SessionStep {
            create_overlay: false,
            copy: None,
            frame: None,
            next: NextAction::InstallGuard,
        },
    )
}

/// A cancellation request seen by a tick ends the pick in that tick: the
/// answer is an exit with `Cancelled` that releases the overlay, if there
/// was one, and the guard, and the service holds no session afterwards.
pub proof fn lemma_cancel_ends_pick(
    service: ColorPickerService,
    session: SamplingSession,
    input: TickInput,
)
    requires
        service.session == Some(session),
        session.phase == SessionPhase::Running,
        input.cancel_requested,
    ensures
        service.on_tick(input).0.session is None,
        service.on_tick(input).1 == Ok::<SessionStep, ServiceError>(
            bare_step(
                NextAction::Exit {
                    outcome: Outcome::Cancelled,
                    release_overlay: session.overlay_created,
                    remove_guard: true,
                },
            ),
        ),
{
}

} // verus!
