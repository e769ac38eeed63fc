//! One sampling session of the colour picker, driven tick by tick.
//!
//! The session decides; the embedding program acts. It polls the keys, the
//! pointer and the pixel under it, hands the readings in, and carries out
//! what comes back: create the overlay, write to the clipboard, paint, wait,
//! and on exit release what the session held.
//!
//! Two scarce things belong to a session: the overlay, and the mouse guard,
//! a hook that keeps presses of the secondary and of the middle button from
//! the windows below for as long as the session lasts.

use crate::color::Color;
use crate::color::OutputFormat;
use crate::color::CLR_INVALID;
use crate::color::color_of;
use crate::error::ServiceError;
use vstd::prelude::*;

verus! {

/// Ticks that pass before the overlay is created.
pub const OVERLAY_DEBOUNCE_TICKS: u32 = 3;

/// Pause between two ticks, in milliseconds.
pub const TICK_INTERVAL_MS: u64 = 16;

/// Pause between two looks at the primary button while its release is
/// awaited, in milliseconds.
pub const RELEASE_POLL_INTERVAL_MS: u64 = 10;

/// A position on the screen.
#[derive(Debug, Clone, Copy, PartialEq, Eq, Structural)]
pub struct Point {
    pub x: i32,
    pub y: i32,
}

/// One reading of the pointer and of the pixel under it.
#[derive(Debug, Clone, Copy, PartialEq, Eq, Structural)]
pub struct PixelSample {
    pub pos: Point,
    pub colorref: u32,
}

/// What was polled for one tick. `sample` is `None` when the pointer could
/// not be read.
#[derive(Debug, Clone, Copy, PartialEq, Eq)]
pub struct TickInput {
    pub cancel_requested: bool,
    pub escape_down: bool,
    pub toggle_down: bool,
    pub copy_down: bool,
    pub primary_down: bool,
    pub sample: Option<PixelSample>,
}

/// How a session ended.
#[derive(Debug, Clone, Copy, PartialEq, Eq)]
pub enum Outcome {
    Cancelled,
    Committed(Color),
    Error(ServiceError),
}

/// A colour to put on the clipboard, in the format that was current.
#[derive(Debug, Clone, Copy, PartialEq, Eq)]
pub struct ClipboardCopy {
    pub color: Color,
    pub format: OutputFormat,
}

/// What the overlay shows after a tick.
#[derive(Debug, Clone, Copy, PartialEq, Eq)]
pub struct Frame {
    pub cursor: Point,
    pub color: Color,
    pub format: OutputFormat,
}

/// What the embedding program does after a step.
#[derive(Debug, Clone, Copy, PartialEq, Eq)]
pub enum NextAction {
    /// Install the mouse guard and report with `guard_installed`.
    InstallGuard,
    /// Wait, poll, and `tick`.
    Tick { after_ms: u64 },
    /// Read the pointer and the pixel once more, at once, and `commit`.
    Resample,
    /// Wait, look at the primary button, and `poll_release`.
    PollRelease { after_ms: u64 },
    /// The session is over: release what it held and hand out the outcome.
    Exit { outcome: Outcome, release_overlay: bool, remove_guard: bool },
}

/// What one step asks of the embedding program.
#[derive(Debug, Clone, Copy, PartialEq, Eq)]
pub struct SessionStep {
    /// Create the overlay now; report success with `overlay_created`.
    pub create_overlay: bool,
    /// Write this to the clipboard.
    pub copy: Option<ClipboardCopy>,
    /// Paint this, if there is an overlay.
    pub frame: Option<Frame>,
    pub next: NextAction,
}

/// Where a running session stands.
#[derive(Debug, Clone, Copy, PartialEq, Eq, Structural)]
pub enum SessionPhase {
    /// The mouse guard is being installed.
    Installing,
    /// Ticking.
    Running,
    /// The primary button went down; the colour is read once more.
    Resampling,
    /// The colour is fixed; the button is still down.
    AwaitingRelease,
}

/// The state of one picking session.
#[derive(Debug, Clone, Copy, PartialEq, Eq)]
pub struct SamplingSession {
    pub phase: SessionPhase,
    pub cursor_pos: Point,
    pub sampled_color: Color,
    pub output_format: OutputFormat,
    pub frame_count: u32,
    pub overlay_created: bool,
    pub toggle_was_down: bool,
    pub copy_was_down: bool,
}

/// The colour that `sample` holds, if it holds one: the pointer was read and
/// the pixel is not the failure value.
pub open spec fn sample_color(sample: Option<PixelSample>) -> Option<Color> {
    match sample {
        Some(s) => if s.colorref == CLR_INVALID {
            None
        } else {
            Some(color_of(s.colorref))
        },
        None => None,
    }
}

/// A step that asks for nothing but `next`.
pub open spec fn bare_step(next: NextAction) -> SessionStep {
    SessionStep { create_overlay: false, copy: None, frame: None, next }
}

impl SamplingSession {
    /// A session that has just been asked for.
    pub open spec fn initial() -> Self {
        SamplingSession {
            phase: SessionPhase::Installing,
            cursor_pos: Point { x: 0, y: 0 },
            sampled_color: Color { r: 0, g: 0, b: 0 },
            output_format: OutputFormat::Rgb,
            frame_count: 0,
            overlay_created: false,
            toggle_was_down: false,
            copy_was_down: false,
        }
    }

    /// The mouse guard is in place.
    pub open spec fn holds_guard(self) -> bool {
        self.phase != SessionPhase::Installing
    }

    /// How many scarce things the session holds: the overlay and the guard.
    pub open spec fn resources_held(self) -> nat {
        let overlay: nat = if self.overlay_created { 1 } else { 0 };
        let guard: nat = if self.holds_guard() { 1 } else { 0 };
        overlay + guard
    }

    /// The session ends with `outcome` and gives back all that it holds.
    pub open spec fn exit(self, outcome: Outcome) -> (Option<Self>, SessionStep) {
        (
            None,
            bare_step(
                NextAction::Exit {
                    outcome,
                    release_overlay: self.overlay_created,
                    remove_guard: self.holds_guard(),
                },
            ),
        )
    }

    /// After the attempt to install the guard.
    pub open spec fn on_guard_installed(self, installed: bool) -> (Option<Self>, SessionStep) {
        if installed {
            (
                Some(SamplingSession { phase: SessionPhase::Running, ..self }),
                bare_step(NextAction::Tick { after_ms: 0 }),
            )
        } else {
            self.exit(Outcome::Error(ServiceError::InstallationFailed))
        }
    }

    /// The tick counter after one more tick; it stops at its largest value.
    pub open spec fn next_frame_count(self) -> u32 {
        if self.frame_count < u32::MAX {
            (self.frame_count + 1) as u32
        } else {
            self.frame_count
        }
    }

    /// The overlay is due in this tick: there is none yet and the debounce
    /// is over.
    pub open spec fn overlay_due(self) -> bool {
        !self.overlay_created && self.next_frame_count() > OVERLAY_DEBOUNCE_TICKS
    }

    /// The toggle key went down since the tick before.
    pub open spec fn toggle_edge(self, input: TickInput) -> bool {
        input.toggle_down && !self.toggle_was_down
    }

    /// The copy key went down since the tick before.
    pub open spec fn copy_edge(self, input: TickInput) -> bool {
        input.copy_down && !self.copy_was_down
    }

    /// The format after the toggle key was looked at.
    pub open spec fn format_after(self, input: TickInput) -> OutputFormat {
        if self.toggle_edge(input) {
            self.output_format.toggled()
        } else {
            self.output_format
        }
    }

    /// One tick, in the order of its checks: cancellation, the escape key,
    /// the overlay, the toggle key, the sample, the copy key, the frame, the
    /// primary button.
    pub open spec fn on_tick(self, input: TickInput) -> (Option<Self>, SessionStep) {
        if input.cancel_requested || input.escape_down {
            self.exit(Outcome::Cancelled)
        } else {
            match (input.sample, sample_color(input.sample)) {
                (Some(sample), Some(color)) => {
                    let format = self.format_after(input);
                    (
                        Some(
                            SamplingSession {
                                phase: if input.primary_down {
                                    SessionPhase::Resampling
                                } else {
                                    SessionPhase::Running
                                },
                                cursor_pos: sample.pos,
                                sampled_color: color,
                                output_format: format,
                                frame_count: self.next_frame_count(),
                                overlay_created: self.overlay_created,
                                toggle_was_down: input.toggle_down,
                                copy_was_down: input.copy_down,
                            },
                        ),
                        SessionStep {
                            create_overlay: self.overlay_due(),
                            copy: if self.copy_edge(input) {
                                Some(ClipboardCopy { color, format })
                            } else {
                                None
                            },
                            frame: if self.overlay_created || self.overlay_due() {
                                Some(Frame { cursor: sample.pos, color, format })
                            } else {
                                None
                            },
                            next: if input.primary_down {
                                NextAction::Resample
                            } else {
                                NextAction::Tick { after_ms: TICK_INTERVAL_MS }
                            },
                        },
                    )
                },
                _ => self.exit(Outcome::Error(ServiceError::ReadFailure)),
            }
        }
    }

    /// After the second reading that a press of the primary button asks
    /// for.
    pub open spec fn on_commit(self, sample: Option<PixelSample>) -> (Option<Self>, SessionStep) {
        match (sample, sample_color(sample)) {
            (Some(s), Some(color)) => (
                Some(
                    SamplingSession {
                        phase: SessionPhase::AwaitingRelease,
                        cursor_pos: s.pos,
                        sampled_color: color,
                        ..self
                    },
                ),
                bare_step(NextAction::PollRelease { after_ms: 0 }),
            ),
            _ => self.exit(Outcome::Error(ServiceError::ReadFailure)),
        }
    }

    /// After a look at the primary button while its release is awaited.
    pub open spec fn on_release_poll(self, primary_down: bool) -> (Option<Self>, SessionStep) {
        if primary_down {
            (Some(self), bare_step(NextAction::PollRelease { after_ms: RELEASE_POLL_INTERVAL_MS }))
        } else {
            self.exit(Outcome::Committed(self.sampled_color))
        }
    }
}

impl SamplingSession {
    /// A session that has just been asked for.
    pub fn new() -> (session: Self)
        ensures
            session == Self::initial(),
    {
        SamplingSession {
            phase: SessionPhase::Installing,
            cursor_pos: Point { x: 0, y: 0 },
            sampled_color: Color { r: 0, g: 0, b: 0 },
            output_format: OutputFormat::Rgb,
            frame_count: 0,
            overlay_created: false,
            toggle_was_down: false,
            copy_was_down: false,
        }
    }

    fn leave(self, outcome: Outcome) -> (result: (Option<Self>, SessionStep))
        ensures
            result == self.exit(outcome),
    {
        let holds_guard = match self.phase {
            SessionPhase::Installing => false,
            _ => true,
        };
        (
            None,
            SessionStep {
                create_overlay: false,
                copy: None,
                frame: None,
                next: NextAction::Exit {
                    outcome,
                    release_overlay: self.overlay_created,
                    remove_guard: holds_guard,
                },
            },
        )
    }

    fn proceed(self, next: NextAction) -> (result: (Option<Self>, SessionStep))
        ensures
            result == (Some(self), bare_step(next)),
    {
        (Some(self), SessionStep { create_overlay: false, copy: None, frame: None, next })
    }

    /// Takes note of the attempt to install the mouse guard: the session
    /// runs if it is in place, and ends with `InstallationFailed` if not.
    pub fn guard_installed(self, installed: bool) -> (result: (Option<Self>, SessionStep))
        ensures
            result == self.on_guard_installed(installed),
    {
        if installed {
            let mut session = self;
            session.phase = SessionPhase::Running;
            session.proceed(NextAction::Tick { after_ms: 0 })
        } else {
            self.leave(Outcome::Error(ServiceError::InstallationFailed))
        }
    }

    /// One tick on what was polled for it.
    pub fn tick(self, input: TickInput) -> (result: (Option<Self>, SessionStep))
        ensures
            result == self.on_tick(input),
    {
        if input.cancel_requested || input.escape_down {
            return self.leave(Outcome::Cancelled);
        }
        let frame_count = if self.frame_count < u32::MAX {
            self.frame_count + 1
        } else {
            self.frame_count
        };
        let create_overlay = !self.overlay_created && frame_count > OVERLAY_DEBOUNCE_TICKS;
        let format = if input.toggle_down && !self.toggle_was_down {
            self.output_format.toggle()
        } else {
            self.output_format
        };
        let sample = match input.sample {
            Some(sample) => sample,
            None => {
                return self.leave(Outcome::Error(ServiceError::ReadFailure));
            },
        };
        if sample.colorref == CLR_INVALID {
            return self.leave(Outcome::Error(ServiceError::ReadFailure));
        }
        let color = Color::from_colorref(sample.colorref);
        let copy = if input.copy_down && !self.copy_was_down {
            Some(ClipboardCopy { color, format })
        } else {
            None
        };
        let frame = if self.overlay_created || create_overlay {
            Some(Frame { cursor: sample.pos, color, format })
        } else {
            None
        };
        let session = SamplingSession {
            phase: if input.primary_down {
                SessionPhase::Resampling
            } else {
                SessionPhase::Running
            },
            cursor_pos: sample.pos,
            sampled_color: color,
            output_format: format,
            frame_count,
            overlay_created: self.overlay_created,
            toggle_was_down: input.toggle_down,
            copy_was_down: input.copy_down,
        };
        let next = if input.primary_down {
            NextAction::Resample
        } else {
            NextAction::Tick { after_ms: TICK_INTERVAL_MS }
        };
        (Some(session), SessionStep { create_overlay, copy, frame, next })
    }

    /// Fixes the colour on the second reading, or ends with `ReadFailure`.
    pub fn commit(self, sample: Option<PixelSample>) -> (result: (Option<Self>, SessionStep))
        ensures
            result == self.on_commit(sample),
    {
        match sample {
            Some(s) => {
                if s.colorref == CLR_INVALID {
                    self.leave(Outcome::Error(ServiceError::ReadFailure))
                } else {
                    let mut session = self;
                    session.phase = SessionPhase::AwaitingRelease;
                    session.cursor_pos = s.pos;
                    session.sampled_color = Color::from_colorref(s.colorref);
                    session.proceed(NextAction::PollRelease { after_ms: 0 })
                }
            },
            None => self.leave(Outcome::Error(ServiceError::ReadFailure)),
        }
    }

    /// Ends the session from outside with `error`, in whatever phase it
    /// stands: the step is an exit that gives back all that the session
    /// holds.
    pub fn abandon(self, error: ServiceError) -> (result: (Option<Self>, SessionStep))
        ensures
            result == self.exit(Outcome::Error(error)),
    {
        self.leave(Outcome::Error(error))
    }

    /// Ends with the fixed colour once the primary button is up; asks for
    /// another look while it is down.
    pub fn poll_release(self, primary_down: bool) -> (result: (Option<Self>, SessionStep))
        ensures
            result == self.on_release_poll(primary_down),
    {
        if primary_down {
            self.proceed(NextAction::PollRelease { after_ms: RELEASE_POLL_INTERVAL_MS })
        } else {
            self.leave(Outcome::Committed(self.sampled_color))
        }
    }
}

impl Outcome {
    /// What the caller of a pick gets: nothing after a cancellation, the
    /// colour as `#rrggbb` in lower case after a commit, the error else.
    pub open spec fn value(self) -> Result<Option<Seq<char>>, ServiceError> {
        match self {
            Outcome::Cancelled => Ok(None),
            Outcome::Committed(color) => Ok(Some(color.hex_lower())),
            Outcome::Error(error) => Err(error),
        }
    }

    /// What the caller of a pick gets.
    pub fn into_result(self) -> (result: Result<Option<String>, ServiceError>)
        ensures
            match self.value() {
                Ok(Some(text)) => result matches Ok(Some(t)) && t@ == text,
                Ok(None) => result == Ok::<Option<String>, ServiceError>(None),
                Err(error) => result == Err::<Option<String>, ServiceError>(error),
            },
    {
        match self {
            Outcome::Cancelled => Ok(None),
            Outcome::Committed(color) => Ok(Some(color.to_hex_lower())),
            Outcome::Error(error) => Err(error),
        }
    }
}

impl ClipboardCopy {
    /// The text to write: `rgb(r, g, b)` or `#RRGGBB`.
    pub fn text(&self) -> (text: String)
        ensures
            text@ == self.color.clipboard_text(self.format),
    {
        self.color.to_clipboard_text(self.format)
    }
}

/// Cancellation ends a session within the tick that sees it, whatever else
/// was polled and wherever the session stood: the outcome is `Cancelled`,
/// nothing is created, copied or painted, the overlay is released if there
/// was one, and the guard is removed.
pub proof fn lemma_cancel_exits_at_once(session: SamplingSession, input: TickInput)
    requires
        session.phase == SessionPhase::Running,
        input.cancel_requested,
    ensures
        session.on_tick(input).0 is None,
        session.on_tick(input).1 == bare_step(
            NextAction::Exit {
                outcome: Outcome::Cancelled,
                release_overlay: session.overlay_created,
                remove_guard: true,
            },
        ),
{
}

/// The number of scarce things that a step tells the program to release.
pub open spec fn resources_released(step: SessionStep) -> nat {
    match step.next {
        NextAction::Exit { release_overlay, remove_guard, .. } => (if release_overlay {
            1nat
        } else {
            0nat
        }) + (if remove_guard {
            1nat
        } else {
            0nat
        }),
        _ => 0,
    }
}

/// Every way out of a session releases all that it held, and no step that
/// keeps the session alive releases anything or loses the overlay. This
/// holds of an exit with any outcome and of each of the four steps, on every
/// input.
pub proof fn lemma_every_exit_releases_all(
    session: SamplingSession,
    input: TickInput,
    sample: Option<PixelSample>,
    flag: bool,
    outcome: Outcome,
)
    ensures
        released_in_full(session, session.exit(outcome)),
        released_in_full(session, session.on_guard_installed(flag)),
        released_in_full(session, session.on_tick(input)),
        released_in_full(session, session.on_commit(sample)),
        released_in_full(session, session.on_release_poll(flag)),
{
}

/// `transition`, made from `session`, either ends the session and releases
/// what it held, or keeps it and releases nothing.
pub open spec fn released_in_full(
    session: SamplingSession,
    transition: (Option<SamplingSession>, SessionStep),
) -> bool {
    match transition.0 {
        None => transition.1.next is Exit && resources_released(transition.1)
            == session.resources_held(),
        Some(after) => !(transition.1.next is Exit) && resources_released(transition.1) == 0
            && after.overlay_created == session.overlay_created,
    }
}

/// The overlay is asked for only after the debounce, and never again once
/// it is there; and whenever it is asked for or there, a tick that goes on
/// brings a frame to paint.
pub proof fn lemma_overlay_created_once(session: SamplingSession, input: TickInput)
    ensures
        session.overlay_created ==> !session.on_tick(input).1.create_overlay,
        session.frame_count < OVERLAY_DEBOUNCE_TICKS ==> !session.on_tick(input).1.create_overlay,
        session.on_tick(input).0 is Some ==> (session.on_tick(input).1.frame is Some <==> (
        session.overlay_created || session.on_tick(input).1.create_overlay)),
        session.on_tick(input).0 is Some && !session.overlay_created && session.frame_count
            >= OVERLAY_DEBOUNCE_TICKS ==> session.on_tick(input).1.create_overlay,
{
}

/// The format changes in a tick exactly when the toggle key is down and was
/// up at the tick before; the session then remembers the key as it found
/// it.
pub proof fn lemma_toggle_only_on_rising_edge(session: SamplingSession, input: TickInput)
    requires
        session.on_tick(input).0 is Some,
    ensures
        session.on_tick(input).0->0.output_format != session.output_format <==> input.toggle_down
            && !session.toggle_was_down,
        session.on_tick(input).0->0.toggle_was_down == input.toggle_down,
{
}

/// Holding the toggle key over two ticks changes the format at most in the
/// first of them.
pub proof fn lemma_held_toggle_does_not_repeat(
    session: SamplingSession,
    first: TickInput,
    second: TickInput,
)
    requires
        first.toggle_down,
        second.toggle_down,
        session.on_tick(first).0 is Some,
        session.on_tick(first).0->0.on_tick(second).0 is Some,
    ensures
        session.on_tick(first).0->0.on_tick(second).0->0.output_format == session.on_tick(
            first,
        ).0->0.output_format,
{
}

/// Only a tick can change the format: the other steps leave it alone.
pub proof fn lemma_format_fixed_outside_ticks(
    session: SamplingSession,
    sample: Option<PixelSample>,
    flag: bool,
)
    ensures
        session.on_guard_installed(flag).0 matches Some(after) ==> after.output_format
            == session.output_format,
        session.on_commit(sample).0 matches Some(after) ==> after.output_format
            == session.output_format,
        session.on_release_poll(flag).0 matches Some(after) ==> after.output_format
            == session.output_format,
{
}

} // verus!
