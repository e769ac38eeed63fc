//! Recognises a double tap of the Ctrl key in a stream of key events.

use crate::clock::MonotonicClock;
use vstd::prelude::*;

verus! {

/// Virtual key code of the generic Ctrl key.
pub const VK_CONTROL: u32 = 0x11;

/// Virtual key code of the left Ctrl key.
pub const VK_LCONTROL: u32 = 0xA2;

/// Virtual key code of the right Ctrl key.
pub const VK_RCONTROL: u32 = 0xA3;

/// Longest pause, in milliseconds, between the release of the first tap and
/// the press of the second.
pub const DOUBLE_CTRL_TIMEOUT_MS: u64 = 400;

/// Where the detector stands within one double tap.
#[derive(Debug, Clone, Copy, PartialEq, Eq, Structural)]
pub enum DoubleCtrlState {
    /// Waiting for the first press.
    Idle,
    /// The first press is held.
    FirstCtrlPressed,
    /// The first tap is over; a second press within the window fires.
    FirstCtrlReleased,
}

/// One key transition, stamped in milliseconds on a monotonic clock.
#[derive(Debug, Clone, Copy, PartialEq, Eq, Structural)]
pub struct KeyEvent {
    pub vk_code: u32,
    pub is_keydown: bool,
    pub timestamp_ms: u64,
}

/// The event that a key transition at `timestamp_ms` makes.
pub open spec fn key_event(vk_code: u32, is_keydown: bool, timestamp_ms: u64) -> KeyEvent {
    KeyEvent { vk_code, is_keydown, timestamp_ms }
}

/// Whether `vk_code` is one of the three Ctrl codes.
pub open spec fn is_trigger_key(vk_code: u32) -> bool {
    vk_code == VK_CONTROL || vk_code == VK_LCONTROL || vk_code == VK_RCONTROL
}

/// Milliseconds from `since` to `now`; zero when `now` is the earlier one.
pub open spec fn elapsed_ms(since: u64, now: u64) -> int {
    if now >= since {
        now - since
    } else {
        0
    }
}

/// What a detector remembers: the mathematical value of a
/// [`DoubleCtrlDetector`].
pub struct DetectorContext {
    pub state: DoubleCtrlState,
    pub first_press_time: Option<u64>,
    pub last_release_time: Option<u64>,
    pub other_key_pressed: bool,
    pub timeout_ms: u64,
}

impl DetectorContext {
    /// The context that waits for a first press.
    pub open spec fn idle(timeout_ms: u64) -> Self {
        DetectorContext {
            state: DoubleCtrlState::Idle,
            first_press_time: None,
            last_release_time: None,
            other_key_pressed: false,
            timeout_ms,
        }
    }

    /// The context after a reset: idle, with the same window.
    pub open spec fn reset(self) -> Self {
        Self::idle(self.timeout_ms)
    }

    /// The context right after a first press at `now`.
    pub open spec fn pressed_at(timeout_ms: u64, now: u64) -> Self {
        DetectorContext {
            state: DoubleCtrlState::FirstCtrlPressed,
            first_press_time: Some(now),
            last_release_time: None,
            other_key_pressed: false,
            timeout_ms,
        }
    }

    /// The times that are recorded are those that the state calls for.
    pub open spec fn wf(self) -> bool {
        match self.state {
            DoubleCtrlState::Idle => self.first_press_time is None && self.last_release_time is None
                && !self.other_key_pressed,
            DoubleCtrlState::FirstCtrlPressed => self.first_press_time is Some
                && self.last_release_time is None,
            DoubleCtrlState::FirstCtrlReleased => self.first_press_time is Some
                && self.last_release_time is Some,
        }
    }

    /// The first tap was released more than the timeout before `now`.
    pub open spec fn expired(self, now: u64) -> bool {
        &&& self.state == DoubleCtrlState::FirstCtrlReleased
        &&& self.last_release_time matches Some(released)
        &&& elapsed_ms(released, now) > self.timeout_ms
    }

    /// The context as an event at `now` finds it: an expired wait for the
    /// second press has fallen back to idle.
    pub open spec fn settled(self, now: u64) -> Self {
        if self.expired(now) {
            Self::idle(self.timeout_ms)
        } else {
            self
        }
    }

    /// Whether `event` completes a double tap.
    pub open spec fn fires(self, event: KeyEvent) -> bool {
        let c = self.settled(event.timestamp_ms);
        &&& event.is_keydown
        &&& is_trigger_key(event.vk_code)
        &&& c.state == DoubleCtrlState::FirstCtrlReleased
        &&& c.last_release_time is Some
        &&& !c.other_key_pressed
    }

    /// The context after `event`.
    pub open spec fn step(self, event: KeyEvent) -> Self {
        let now = event.timestamp_ms;
        let c = self.settled(now);
        if event.is_keydown {
            if is_trigger_key(event.vk_code) {
                match c.state {
                    DoubleCtrlState::Idle => Self::pressed_at(c.timeout_ms, now),
                    DoubleCtrlState::FirstCtrlPressed => c,
                    DoubleCtrlState::FirstCtrlReleased => if self.fires(event) {
                        Self::idle(c.timeout_ms)
                    } else {
                        Self::pressed_at(c.timeout_ms, now)
                    },
                }
            } else if c.state == DoubleCtrlState::Idle {
                c
            } else {
                DetectorContext { other_key_pressed: true, ..c }
            }
        } else if is_trigger_key(event.vk_code) {
            match c.state {
                DoubleCtrlState::Idle => c,
                DoubleCtrlState::FirstCtrlPressed => DetectorContext {
                    state: DoubleCtrlState::FirstCtrlReleased,
                    last_release_time: Some(now),
                    ..c
                },
                DoubleCtrlState::FirstCtrlReleased => DetectorContext {
                    last_release_time: Some(now),
                    ..c
                },
            }
        } else {
            c
        }
    }

    /// The context after all of `events`, in order.
    pub open spec fn run(self, events: Seq<KeyEvent>) -> Self
        decreases events.len(),
    {
        if events.len() == 0 {
            self
        } else {
            self.run(events.drop_last()).step(events.last())
        }
    }

    /// What each of `events` answered, in order.
    pub open spec fn outputs(self, events: Seq<KeyEvent>) -> Seq<bool> {
        Seq::new(events.len(), |i: int| self.run(events.take(i)).fires(events[i]))
    }
}

/// State machine that watches key events for a double tap of Ctrl.
pub struct DoubleCtrlDetector {
    state: DoubleCtrlState,
    first_press_time: Option<u64>,
    last_release_time: Option<u64>,
    other_key_pressed: bool,
    timeout_ms: u64,
    clock: MonotonicClock,
}

impl View for DoubleCtrlDetector {
    type V = DetectorContext;

    closed spec fn view(&self) -> DetectorContext {
        DetectorContext {
            state: self.state,
            first_press_time: self.first_press_time,
            last_release_time: self.last_release_time,
            other_key_pressed: self.other_key_pressed,
            timeout_ms: self.timeout_ms,
        }
    }
}

impl DoubleCtrlDetector {
    /// An idle detector with the standard window of 400 ms.
    pub fn new() -> (detector: Self)
        ensures
            detector@ == DetectorContext::idle(DOUBLE_CTRL_TIMEOUT_MS),
    {
        Self::with_timeout(DOUBLE_CTRL_TIMEOUT_MS)
    }

    /// An idle detector whose window is `timeout_ms` long.
    pub fn with_timeout(timeout_ms: u64) -> (detector: Self)
        ensures
            detector@ == DetectorContext::idle(timeout_ms),
    {
        DoubleCtrlDetector {
            state: DoubleCtrlState::Idle,
            first_press_time: None,
            last_release_time: None,
            other_key_pressed: false,
            timeout_ms,
            clock: MonotonicClock::start(),
        }
    }

    /// Forgets the tap in progress.
    pub fn reset(&mut self)
        ensures
            final(self)@ == old(self)@.reset(),
    {
        self.state = DoubleCtrlState::Idle;
        self.first_press_time = None;
        self.last_release_time = None;
        self.other_key_pressed = false;
    }

    /// Whether `vk_code` denotes Ctrl: generic, left or right.
    pub fn is_ctrl_key(vk_code: u32) -> (is_ctrl: bool)
        ensures
            is_ctrl == is_trigger_key(vk_code),
    {
        vk_code == VK_CONTROL || vk_code == VK_LCONTROL || vk_code == VK_RCONTROL
    }

    pub fn state(&self) -> (state: DoubleCtrlState)
        ensures
            state == self@.state,
    {
        self.state
    }

    pub fn first_press_time(&self) -> (time: Option<u64>)
        ensures
            time == self@.first_press_time,
    {
        self.first_press_time
    }

    pub fn last_release_time(&self) -> (time: Option<u64>)
        ensures
            time == self@.last_release_time,
    {
        self.last_release_time
    }

    pub fn other_key_pressed(&self) -> (pressed: bool)
        ensures
            pressed == self@.other_key_pressed,
    {
        self.other_key_pressed
    }

    pub fn timeout_ms(&self) -> (timeout: u64)
        ensures
            timeout == self@.timeout_ms,
    {
        self.timeout_ms
    }

    /// What the detector's own clock reads, in milliseconds.
    pub(crate) fn clock_ms(&self) -> (now: u64) {
        self.clock.now_ms()
    }

    fn begin_press(&mut self, now: u64)
        ensures
            final(self)@ == DetectorContext::pressed_at(old(self)@.timeout_ms, now),
    {
        self.state = DoubleCtrlState::FirstCtrlPressed;
        self.first_press_time = Some(now);
        self.last_release_time = None;
        self.other_key_pressed = false;
    }

    fn has_expired(&self, now: u64) -> (expired: bool)
        ensures
            expired == self@.expired(now),
    {
        match self.last_release_time {
            Some(released) => self.state == DoubleCtrlState::FirstCtrlReleased && now >= released
                && now - released > self.timeout_ms,
            None => false,
        }
    }

    /// Stamps a key transition with the detector's own clock and feeds it to
    /// the state machine. The stamp is whatever the clock reads, so the
    /// outcome is that of [`Self::handle_event`] for some timestamp.
    pub fn handle_key_event(&mut self, vk_code: u32, is_keydown: bool) -> (fired: bool)
        ensures
            exists|timestamp_ms: u64|
                {
                    &&& final(self)@ == old(self)@.step(
                        #[trigger] key_event(vk_code, is_keydown, timestamp_ms),
                    )
                    &&& fired == old(self)@.fires(key_event(vk_code, is_keydown, timestamp_ms))
                },
            old(self)@.wf() ==> final(self)@.wf(),
            !(is_keydown && is_trigger_key(vk_code)) ==> !fired,
    {
        let timestamp_ms = self.clock_ms();
        assert(key_event(vk_code, is_keydown, timestamp_ms) == (KeyEvent {
            vk_code,
            is_keydown,
            timestamp_ms,
        }));
        self.handle_event(KeyEvent { vk_code, is_keydown, timestamp_ms })
    }

    /// Feeds one event to the state machine and tells whether it completed a
    /// double tap.
    pub fn handle_event(&mut self, event: KeyEvent) -> (fired: bool)
        ensures
            final(self)@ == old(self)@.step(event),
            fired == old(self)@.fires(event),
            old(self)@.wf() ==> final(self)@.wf(),
    {
        let now = event.timestamp_ms;
        if self.has_expired(now) {
            self.reset();
        }
        let is_ctrl = Self::is_ctrl_key(event.vk_code);
        if event.is_keydown {
            if is_ctrl {
                match self.state {
                    DoubleCtrlState::Idle => {
                        self.begin_press(now);
                    },
                    DoubleCtrlState::FirstCtrlPressed => {},
                    DoubleCtrlState::FirstCtrlReleased => {
                        if self.last_release_time.is_some() && !self.other_key_pressed {
                            self.reset();
                            return true;
                        }
                        self.begin_press(now);
                    },
                }
            } else if self.state != DoubleCtrlState::Idle {
                self.other_key_pressed = true;
            }
        } else if is_ctrl {
            match self.state {
                DoubleCtrlState::Idle => {},
                DoubleCtrlState::FirstCtrlPressed => {
                    self.state = DoubleCtrlState::FirstCtrlReleased;
                    self.last_release_time = Some(now);
                },
                DoubleCtrlState::FirstCtrlReleased => {
                    self.last_release_time = Some(now);
                },
            }
        }
        false
    }
}

/// No event of `events` is a Ctrl event.
pub open spec fn no_trigger_events(events: Seq<KeyEvent>) -> bool {
    forall|i: int| 0 <= i < events.len() ==> !is_trigger_key(#[trigger] events[i].vk_code)
}

/// Running one more event is one more step.
pub proof fn lemma_run_push(c: DetectorContext, events: Seq<KeyEvent>, event: KeyEvent)
    ensures
        c.run(events.push(event)) == c.run(events).step(event),
{
    assert(events.push(event).drop_last() =~= events);
}

/// Two taps of Ctrl from idle, the second press no later than the timeout
/// after the first release, fire exactly once: at the second press. The
/// detector is idle again afterwards. This holds for every choice of the four
/// timestamps and of the Ctrl variant of each event.
pub proof fn lemma_double_tap_fires_once(
    timeout_ms: u64,
    first_down: KeyEvent,
    first_up: KeyEvent,
    second_down: KeyEvent,
    second_up: KeyEvent,
)
    requires
        is_trigger_key(first_down.vk_code) && first_down.is_keydown,
        is_trigger_key(first_up.vk_code) && !first_up.is_keydown,
        is_trigger_key(second_down.vk_code) && second_down.is_keydown,
        is_trigger_key(second_up.vk_code) && !second_up.is_keydown,
        elapsed_ms(first_up.timestamp_ms, second_down.timestamp_ms) <= timeout_ms,
    ensures
        DetectorContext::idle(timeout_ms).outputs(
            seq![first_down, first_up, second_down, second_up],
        ) == seq![false, false, true, false],
        DetectorContext::idle(timeout_ms).run(seq![first_down, first_up, second_down, second_up])
            == DetectorContext::idle(timeout_ms),
{
    let c = DetectorContext::idle(timeout_ms);
    let events = seq![first_down, first_up, second_down, second_up];
    let e0 = Seq::<KeyEvent>::empty();
    assert(events.take(0) =~= e0);
    assert(events.take(1) =~= e0.push(first_down));
    assert(events.take(2) =~= events.take(1).push(first_up));
    assert(events.take(3) =~= events.take(2).push(second_down));
    assert(events =~= events.take(3).push(second_up));
    lemma_run_push(c, e0, first_down);
    lemma_run_push(c, events.take(1), first_up);
    lemma_run_push(c, events.take(2), second_down);
    lemma_run_push(c, events.take(3), second_up);
    assert(c.run(e0) == c);
    assert(c.outputs(events) =~= seq![false, false, true, false]);
}

/// Releases of other keys do not disturb the wait for the second press: if
/// nothing but such releases comes after the first tap, each within the
/// window, the context stays as it was, and a press of Ctrl within the
/// window fires and leaves the detector idle.
pub proof fn lemma_releases_do_not_interfere(
    c: DetectorContext,
    released: u64,
    between: Seq<KeyEvent>,
    press: KeyEvent,
)
    requires
        c.state == DoubleCtrlState::FirstCtrlReleased,
        c.last_release_time == Some(released),
        !c.other_key_pressed,
        no_trigger_events(between),
        forall|i: int|
            0 <= i < between.len() ==> !(#[trigger] between[i]).is_keydown && elapsed_ms(
                released,
                between[i].timestamp_ms,
            ) <= c.timeout_ms,
        is_trigger_key(press.vk_code) && press.is_keydown,
        elapsed_ms(released, press.timestamp_ms) <= c.timeout_ms,
    ensures
        c.run(between) == c,
        c.outputs(between) == Seq::new(between.len(), |i: int| false),
        c.run(between).fires(press),
        c.run(between).step(press) == DetectorContext::idle(c.timeout_ms),
    decreases between.len(),
{
    if between.len() > 0 {
        let init = between.drop_last();
        let last = between.last();
        assert(!is_trigger_key(last.vk_code));
        assert(!last.is_keydown);
        lemma_releases_do_not_interfere(c, released, init, press);
        assert(c.run(between) == c.run(init).step(last));
    }
    assert forall|i: int| 0 <= i < between.len() implies !c.run(between.take(i)).fires(
        #[trigger] between[i],
    ) by {
        assert(!is_trigger_key(between[i].vk_code));
    }
    assert(c.outputs(between) =~= Seq::new(between.len(), |i: int| false));
}

/// While the detector waits for the second press, keys other than Ctrl
/// never fire, and once one of them has gone down the wait is spoiled: the
/// next press of Ctrl does not fire, whenever it comes, and begins a fresh
/// first press at its own timestamp.
pub proof fn lemma_interference_suppresses(
    c: DetectorContext,
    between: Seq<KeyEvent>,
    k: int,
    press: KeyEvent,
)
    requires
        c.state == DoubleCtrlState::FirstCtrlReleased,
        no_trigger_events(between),
        0 <= k < between.len(),
        between[k].is_keydown,
        is_trigger_key(press.vk_code) && press.is_keydown,
    ensures
        c.outputs(between) == Seq::new(between.len(), |i: int| false),
        !c.run(between).fires(press),
        c.run(between).step(press) == DetectorContext::pressed_at(
            c.timeout_ms,
            press.timestamp_ms,
        ),
{
    lemma_spoiled_by_other_key(c, between, k);
    assert(c.outputs(between) =~= Seq::new(between.len(), |i: int| false));
}

/// A press of Ctrl that comes later than the timeout after the release of
/// the first tap does not fire and begins a fresh first press at its own
/// timestamp.
pub proof fn lemma_late_press_restarts(c: DetectorContext, released: u64, press: KeyEvent)
    requires
        c.state == DoubleCtrlState::FirstCtrlReleased,
        c.last_release_time == Some(released),
        elapsed_ms(released, press.timestamp_ms) > c.timeout_ms,
        is_trigger_key(press.vk_code) && press.is_keydown,
    ensures
        !c.fires(press),
        c.step(press) == DetectorContext::pressed_at(c.timeout_ms, press.timestamp_ms),
{
}

/// A reset wipes the past: two detectors with the same window, whatever
/// they have seen before, answer alike to the same events once both are
/// reset, and end in the same context.
pub proof fn lemma_reset_then_replay(a: DetectorContext, b: DetectorContext, events: Seq<KeyEvent>)
    requires
        a.timeout_ms == b.timeout_ms,
    ensures
        a.reset().outputs(events) == b.reset().outputs(events),
        a.reset().run(events) == b.reset().run(events),
{
}

/// Every step keeps the recorded times in line with the state, and never
/// changes the window.
pub proof fn lemma_run_keeps_wf(c: DetectorContext, events: Seq<KeyEvent>)
    requires
        c.wf(),
    ensures
        c.run(events).wf(),
        c.run(events).timeout_ms == c.timeout_ms,
    decreases events.len(),
{
    if events.len() > 0 {
        lemma_run_keeps_wf(c, events.drop_last());
    }
}

spec fn waiting(c: DetectorContext) -> bool {
    c == DetectorContext::idle(c.timeout_ms) || c.state == DoubleCtrlState::FirstCtrlReleased
}

spec fn spoiled(c: DetectorContext) -> bool {
    c == DetectorContext::idle(c.timeout_ms) || (c.state == DoubleCtrlState::FirstCtrlReleased
        && c.other_key_pressed)
}

proof fn lemma_waiting_run(c: DetectorContext, between: Seq<KeyEvent>)
    requires
        waiting(c),
        no_trigger_events(between),
    ensures
        waiting(c.run(between)),
        spoiled(c) ==> spoiled(c.run(between)),
        c.run(between).timeout_ms == c.timeout_ms,
    decreases between.len(),
{
    if between.len() > 0 {
        assert(!is_trigger_key(between[between.len() - 1].vk_code));
        lemma_waiting_run(c, between.drop_last());
    }
}

proof fn lemma_spoiled_by_other_key(c: DetectorContext, between: Seq<KeyEvent>, k: int)
    requires
        waiting(c),
        no_trigger_events(between),
        0 <= k < between.len(),
        between[k].is_keydown,
    ensures
        spoiled(c.run(between)),
        c.run(between).timeout_ms == c.timeout_ms,
        forall|i: int| 0 <= i < between.len() ==> !c.run(between.take(i)).fires(#[trigger] between[i]),
    decreases between.len(),
{
    let init = between.drop_last();
    assert(!is_trigger_key(between[between.len() - 1].vk_code));
    lemma_waiting_run(c, init);
    if k < init.len() {
        lemma_spoiled_by_other_key(c, init, k);
    }
    assert forall|i: int| 0 <= i < between.len() implies !c.run(between.take(i)).fires(
        #[trigger] between[i],
    ) by {
        assert(!is_trigger_key(between[i].vk_code));
    }
}

} // verus!
