//! The firmware state and its two interrupt tasks.
//!
//! The state couples the three shared resources (LED, tick counter, blink
//! interval) with the debounce task's phase. Each hardware interrupt is one
//! event; the transition functions here say exactly what every event does to
//! the state, and the lemmas reason over whole interrupt sequences.

use vstd::prelude::*;
use crate::led::Led;
use crate::sched::ResourceId;
use crate::sched::TaskId;
use crate::sched::Threshold;

verus! {

/// Blink interval at boot and after an even number of presses: ticks per
/// half-period of the slow blink.
pub const NORMAL_INTERVAL: u32 = 100;

/// Blink interval after an odd number of presses: ticks per half-period of
/// the fast blink.
pub const FAST_INTERVAL: u32 = 20;

/// Abstract firmware state: the three shared resources plus the debounce
/// task's phase.
pub struct State {
    /// LED on/off flag.
    pub led: bool,
    /// Ticks elapsed in the current blink half-period.
    pub count: u32,
    /// Ticks per blink half-period.
    pub interval: u32,
    /// The debounce task has consumed a button edge and is spinning until it
    /// observes the LED off.
    pub waiting: bool,
}

/// The counter resources are in range: the interval is one of its two preset
/// values and the tick counter lies strictly below the larger one. Right
/// after the interval shrinks the counter may briefly sit at or above the
/// new interval; the next tick then toggles and resets it.
pub open spec fn counter_wf(s: State) -> bool {
    &&& s.interval == NORMAL_INTERVAL || s.interval == FAST_INTERVAL
    &&& s.count < NORMAL_INTERVAL
}

/// The shared resources are consistent: the counters are in range, and the
/// counter lies strictly below the interval whenever the LED is lit (the
/// interval only ever changes while the LED is off, and a toggle resets the
/// counter).
pub open spec fn resources_wf(s: State) -> bool {
    &&& counter_wf(s)
    &&& s.led ==> s.count < s.interval
}

/// Full state invariant: the resources are consistent and the debounce task
/// only ever waits while the LED is lit (a press with the LED already off is
/// served immediately).
pub open spec fn inv(s: State) -> bool {
    &&& resources_wf(s)
    &&& s.waiting ==> s.led
}

/// State at boot: LED off, counter zero, slow interval, debounce task idle.
pub open spec fn init_spec() -> State {
    State { led: false, count: 0, interval: NORMAL_INTERVAL, waiting: false }
}

/// The other preset interval: a press toggles between the two.
pub open spec fn flip_spec(interval: u32) -> u32 {
    if interval == NORMAL_INTERVAL {
        FAST_INTERVAL
    } else {
        NORMAL_INTERVAL
    }
}

/// One timer tick as seen by the blink task: the counter advances, and on
/// reaching the interval it resets and the LED inverts.
pub open spec fn tick_spec(s: State) -> State {
    if s.count + 1 >= s.interval {
        State { led: !s.led, count: 0, ..s }
    } else {
        State { count: (s.count + 1) as u32, ..s }
    }
}

/// One poll of the debounce task's settling loop: once it observes the LED
/// off it flips the interval and goes idle; otherwise nothing changes.
pub open spec fn poll_spec(s: State) -> State {
    if s.waiting && !s.led {
        State { interval: flip_spec(s.interval), waiting: false, ..s }
    } else {
        s
    }
}

/// One button-edge interrupt as seen by the debounce task. A released button
/// (pin high) is noise and changes nothing. A pressed button (pin low) is
/// served immediately when the LED is already off; otherwise the task starts
/// spinning for an off observation.
pub open spec fn edge_spec(s: State, pin_low: bool) -> State {
    if pin_low {
        if !s.led {
            State { interval: flip_spec(s.interval), ..s }
        } else {
            State { waiting: true, ..s }
        }
    } else {
        s
    }
}

/// A hardware interrupt, as handed to the scheduler.
#[derive(Clone, Copy, PartialEq, Eq, Structural, Debug)]
pub enum Event {
    /// One firing of the periodic timer.
    Tick,
    /// A falling edge latched on the button pin; the payload is the pin level
    /// read back in the handler (`true` for logically low, i.e. pressed).
    Edge { pin_low: bool },
}

/// Effect of one interrupt on the whole state. A tick runs the blink task
/// and then lets the preempted debounce task (if it is spinning) poll the
/// LED; an edge runs the debounce task's handler entry.
pub open spec fn step_spec(s: State, ev: Event) -> State {
    match ev {
        Event::Tick => poll_spec(tick_spec(s)),
        Event::Edge { pin_low } => edge_spec(s, pin_low),
    }
}

/// The firmware: the three shared resources and the debounce phase, driven
/// by interrupts handed in as plain events.
pub struct System {
    led: Led,
    count: u32,
    interval: u32,
    waiting: bool,
}

impl View for System {
    type V = State;

    closed spec fn view(&self) -> State {
        State { led: self.led@, count: self.count, interval: self.interval, waiting: self.waiting }
    }
}

/// Pin actions requested by the debounce task's handler entry, to be applied
/// to the interrupt controller by the surrounding program.
pub struct EdgeActions {
    /// Defensively re-assert the handler's own pending bit, so a further
    /// press can re-enter even if the hardware edge latch needs re-arming.
    pub re_pend: bool,
    /// Clear the edge-latch pending bit for this interrupt source.
    pub clear_latch: bool,
}

impl System {
    /// The state the firmware boots in: LED off, counter zero, slow
    /// interval, debounce task idle.
    pub fn new() -> (s: System)
        ensures
            s@ == init_spec(),
            inv(s@),
    {
        System { led: Led::new(false), count: 0, interval: NORMAL_INTERVAL, waiting: false }
    }

    /// The LED is currently lit.
    pub fn led_is_on(&self) -> (on: bool)
        ensures
            on == self@.led,
    {
        self.led.is_on()
    }

    /// Ticks elapsed in the current blink half-period.
    pub fn count(&self) -> (c: u32)
        ensures
            c == self@.count,
    {
        self.count
    }

    /// Current blink interval in ticks.
    pub fn interval(&self) -> (i: u32)
        ensures
            i == self@.interval,
    {
        self.interval
    }

    /// The debounce task is spinning for an LED-off observation.
    pub fn is_waiting(&self) -> (w: bool)
        ensures
            w == self@.waiting,
    {
        self.waiting
    }

    /// The periodic blink task, invoked once per timer tick. Advances the
    /// tick counter; on reaching the interval, resets it and inverts the
    /// LED. Returns the level to drive on the LED pin, or `None` when this
    /// tick does not toggle. Runs at the highest priority, which is also the
    /// ceiling of every resource it touches, so it needs no explicit claim.
    pub fn sys_tick(&mut self) -> (level: Option<bool>)
        requires
            counter_wf(old(self)@),
        ensures
            final(self)@ == tick_spec(old(self)@),
            counter_wf(final(self)@),
            final(self)@.interval == old(self)@.interval,
            final(self)@.waiting == old(self)@.waiting,
            level == if old(self)@.count + 1 >= old(self)@.interval {
                Some(final(self)@.led)
            } else {
                None::<bool>
            },
            (old(self)@.count + 1 >= old(self)@.interval) ==> final(self)@.led == !old(self)@.led
                && final(self)@.count == 0,
            (old(self)@.count + 1 < old(self)@.interval) ==> final(self)@.led == old(self)@.led
                && final(self)@.count == old(self)@.count + 1,
    {
        self.count = self.count + 1;
        if self.count >= self.interval {
            self.count = 0;
            let level = self.led.blink();
            Some(level)
        } else {
            None
        }
    }

    /// Flips the interval between its two preset values. Called only inside
    /// a claim on the interval resource, so no reader ever sees it mid-write.
    fn flip_interval(&mut self)
        ensures
            final(self)@ == (State { interval: flip_spec(old(self)@.interval), ..old(self)@ }),
    {
        if self.interval == NORMAL_INTERVAL {
            self.interval = FAST_INTERVAL;
        } else {
            self.interval = NORMAL_INTERVAL;
        }
    }

    /// The debounce task's handler entry, invoked on a falling-edge
    /// interrupt of the button pin; `pin_low` is the level read back from
    /// the pin (`true` when the button is held). Re-arms its own pending bit
    /// defensively, and on a debounced press either flips the interval at
    /// once (LED already off) or starts spinning for an LED-off observation.
    /// `t` is the task's claim context; every claim it opens is closed again
    /// before the handler returns.
    pub fn exti13(&mut self, t: &mut Threshold, pin_low: bool) -> (act: EdgeActions)
        requires
            inv(old(self)@),
            !old(self)@.waiting,
            old(t).task == TaskId::Debounce,
            old(t).no_claims(),
        ensures
            final(self)@ == edge_spec(old(self)@, pin_low),
            inv(final(self)@),
            final(t).task == old(t).task,
            final(t).no_claims(),
            act.re_pend,
            act.clear_latch == pin_low,
            final(self)@.waiting == (pin_low && old(self)@.led),
    {
        let act = EdgeActions { re_pend: true, clear_latch: pin_low };
        if pin_low {
            t.claim_enter(ResourceId::Led);
            let on = self.led.is_on();
            t.claim_exit();
            proof {
                assert(t.claims@ =~= old(t).claims@);
            }
            if !on {
                t.claim_enter(ResourceId::Interval);
                self.flip_interval();
                t.claim_exit();
                proof {
                    assert(t.claims@ =~= old(t).claims@);
                }
            } else {
                self.waiting = true;
            }
        }
        act
    }

    /// One iteration of the debounce task's settling loop, run whenever the
    /// spinning task gets the core back after a tick: claims the LED, and on
    /// observing it off claims the interval, flips it and goes idle. Returns
    /// whether the task is idle again. Every claim opened here is closed
    /// again before the function returns.
    pub fn debounce_poll(&mut self, t: &mut Threshold) -> (done: bool)
        requires
            resources_wf(old(self)@),
            old(t).task == TaskId::Debounce,
            old(t).no_claims(),
        ensures
            final(self)@ == poll_spec(old(self)@),
            inv(final(self)@),
            final(t).task == old(t).task,
            final(t).no_claims(),
            done == !final(self)@.waiting,
    {
        if !self.waiting {
            return true;
        }
        t.claim_enter(ResourceId::Led);
        let on = self.led.is_on();
        t.claim_exit();
        proof {
            assert(t.claims@ =~= old(t).claims@);
        }
        if !on {
            t.claim_enter(ResourceId::Interval);
            self.flip_interval();
            t.claim_exit();
            proof {
                assert(t.claims@ =~= old(t).claims@);
            }
            self.waiting = false;
            true
        } else {
            false
        }
    }

    /// Dispatches one hardware interrupt. A tick runs the blink task, which
    /// preempts even a spinning debounce task (it holds no claim between
    /// polls), and then lets the debounce task poll the LED once; an edge
    /// runs the debounce task's handler entry. Returns the pin actions the
    /// surrounding program must perform.
    pub fn step(&mut self, ev: Event) -> (act: StepActions)
        requires
            inv(old(self)@),
            ev != Event::Tick ==> !old(self)@.waiting,
        ensures
            final(self)@ == step_spec(old(self)@, ev),
            inv(final(self)@),
            ev == Event::Tick ==> !act.re_pend && !act.clear_latch,
            ev != Event::Tick ==> act.re_pend && act.pin_level is None,
    {
        match ev {
            Event::Tick => {
                let level = self.sys_tick();
                let mut t = Threshold::new(TaskId::Debounce);
                let _done = self.debounce_poll(&mut t);
                StepActions { pin_level: level, re_pend: false, clear_latch: false }
            },
            Event::Edge { pin_low } => {
                let mut t = Threshold::new(TaskId::Debounce);
                let edge = self.exti13(&mut t, pin_low);
                StepActions { pin_level: None, re_pend: edge.re_pend, clear_latch: edge.clear_latch }
            },
        }
    }
}

/// Pin and interrupt-controller actions requested by one dispatched
/// interrupt, applied by the surrounding program.
pub struct StepActions {
    /// New level to drive on the LED pin, when this interrupt toggled it.
    pub pin_level: Option<bool>,
    /// Re-assert the debounce handler's own pending bit.
    pub re_pend: bool,
    /// Clear the edge-latch pending bit of the button interrupt.
    pub clear_latch: bool,
}

/// Whether one tick from state `s` toggles the LED.
pub open spec fn tick_toggles(s: State) -> bool {
    s.count + 1 >= s.interval
}

/// State after `n` timer ticks with no button activity.
pub open spec fn run_ticks(s: State, n: nat) -> State
    decreases n,
{
    if n == 0 {
        s
    } else {
        tick_spec(run_ticks(s, (n - 1) as nat))
    }
}

/// Number of LED toggles within the first `n` ticks from `s`.
pub open spec fn toggles(s: State, n: nat) -> nat
    decreases n,
{
    if n == 0 {
        0nat
    } else {
        toggles(s, (n - 1) as nat) + if tick_toggles(run_ticks(s, (n - 1) as nat)) {
            1nat
        } else {
            0nat
        }
    }
}

/// State after `n` dispatched tick interrupts, each followed by one poll of
/// the (possibly spinning) debounce task.
pub open spec fn run_steps_ticks(s: State, n: nat) -> State
    decreases n,
{
    if n == 0 {
        s
    } else {
        step_spec(run_steps_ticks(s, (n - 1) as nat), Event::Tick)
    }
}

/// Every interrupt preserves the state invariant.
pub proof fn lemma_step_preserves_inv(s: State, ev: Event)
    requires
        inv(s),
    ensures
        inv(step_spec(s, ev)),
{
}

/// Any sequence of interrupts, dispatched in order.
pub open spec fn run_events(s: State, evs: Seq<Event>) -> State
    decreases evs.len(),
{
    if evs.len() == 0 {
        s
    } else {
        run_events(step_spec(s, evs[0]), evs.drop_first())
    }
}

/// The state invariant holds after every interrupt sequence: however ticks
/// and button edges interleave, the tick counter never leaves its range, the
/// interval is always one of its two preset values, and the debounce task
/// only ever waits while the LED is lit.
pub proof fn lemma_inv_for_all_sequences(s: State, evs: Seq<Event>)
    requires
        inv(s),
    ensures
        inv(run_events(s, evs)),
    decreases evs.len(),
{
    if evs.len() > 0 {
        lemma_step_preserves_inv(s, evs[0]);
        lemma_inv_for_all_sequences(step_spec(s, evs[0]), evs.drop_first());
    }
}

/// Below the toggle boundary, ticks advance nothing but the counter.
pub proof fn lemma_run_before_boundary(s: State, k: nat)
    requires
        s.count + k < s.interval,
    ensures
        run_ticks(s, k) == (State { count: (s.count + k) as u32, ..s }),
        toggles(s, k) == 0,
    decreases k,
{
    if k > 0 {
        lemma_run_before_boundary(s, (k - 1) as nat);
    }
}

/// With no button activity the LED toggles exactly once every `interval`
/// ticks: starting a half-period (counter zero), the first `interval - 1`
/// ticks leave the LED alone while the counter stays strictly inside
/// `[0, interval)`, and the `interval`-th tick inverts the LED and resets
/// the counter to zero.
pub proof fn lemma_blink_half_period(s: State)
    requires
        s.count == 0,
        0 < s.interval,
    ensures
        forall|k: nat|
            k < s.interval ==> #[trigger] run_ticks(s, k) == (State { count: k as u32, ..s }),
        forall|k: nat| k < s.interval ==> #[trigger] toggles(s, k) == 0,
        run_ticks(s, s.interval as nat) == (State { led: !s.led, count: 0, ..s }),
        toggles(s, s.interval as nat) == 1,
{
    assert forall|k: nat| k < s.interval implies #[trigger] run_ticks(s, k) == (State {
        count: k as u32,
        ..s
    }) by {
        lemma_run_before_boundary(s, k);
    }
    assert forall|k: nat| k < s.interval implies #[trigger] toggles(s, k) == 0 by {
        lemma_run_before_boundary(s, k);
    }
    lemma_run_before_boundary(s, (s.interval - 1) as nat);
}

/// Runs of ticks compose: `m + n` ticks are `m` ticks and then `n` more,
/// and the toggle counts add up.
pub proof fn lemma_run_ticks_add(s: State, m: nat, n: nat)
    ensures
        run_ticks(s, m + n) == run_ticks(run_ticks(s, m), n),
        toggles(s, m + n) == toggles(s, m) + toggles(run_ticks(s, m), n),
    decreases n,
{
    if n > 0 {
        lemma_run_ticks_add(s, m, (n - 1) as nat);
    }
}

/// Over any whole number of half-periods with no button activity:
/// `j * interval` ticks from a fresh half-period produce exactly `j`
/// toggles, return the counter to zero, and leave the LED inverted exactly
/// when `j` is odd.
pub proof fn lemma_blink_periodic(s: State, j: nat)
    requires
        s.count == 0,
        0 < s.interval,
    ensures
        run_ticks(s, j * (s.interval as nat)) == (State {
            led: if j % 2 == 0 {
                s.led
            } else {
                !s.led
            },
            count: 0,
            ..s
        }),
        toggles(s, j * (s.interval as nat)) == j,
    decreases j,
{
    let i = s.interval as nat;
    if j == 0 {
        assert(0 * i == 0) by (nonlinear_arith);
    } else {
        let j1 = (j - 1) as nat;
        lemma_blink_periodic(s, j1);
        assert((j1 + 1) * i == j1 * i + i) by (nonlinear_arith);
        assert(j1 * i + i == j * i);
        let t = run_ticks(s, j1 * i);
        lemma_run_ticks_add(s, j1 * i, i);
        lemma_blink_half_period(t);
    }
}

/// Ticks never touch the interval resource or the debounce phase.
pub proof fn lemma_run_ticks_keeps(s: State, n: nat)
    ensures
        run_ticks(s, n).interval == s.interval,
        run_ticks(s, n).waiting == s.waiting,
    decreases n,
{
    if n > 0 {
        lemma_run_ticks_keeps(s, (n - 1) as nat);
    }
}

/// While the debounce task is idle, dispatched ticks and pure blink ticks
/// agree: the poll after each tick finds nothing to do.
pub proof fn lemma_ticks_without_press(s: State, n: nat)
    requires
        !s.waiting,
    ensures
        run_steps_ticks(s, n) == run_ticks(s, n),
    decreases n,
{
    if n > 0 {
        lemma_ticks_without_press(s, (n - 1) as nat);
        lemma_run_ticks_keeps(s, (n - 1) as nat);
    }
}

/// While the debounce task spins and the LED stays lit, dispatched ticks
/// advance nothing but the counter; the interval keeps its value.
proof fn lemma_wait_before_toggle(s: State, k: nat)
    requires
        inv(s),
        s.waiting,
        s.count + k < s.interval,
    ensures
        run_steps_ticks(s, k) == (State { count: (s.count + k) as u32, ..s }),
    decreases k,
{
    if k > 0 {
        lemma_wait_before_toggle(s, (k - 1) as nat);
    }
}

/// A spinning debounce task completes exactly when the blink task next
/// turns the LED off: `interval - count` ticks after it started waiting.
/// Until then the interval keeps its old value; at completion it is flipped
/// to the other preset value, the counter has just reset, the LED is off,
/// and the task is idle again.
pub proof fn lemma_debounce_completes(s: State)
    requires
        inv(s),
        s.waiting,
    ensures
        forall|k: nat|
            k < s.interval - s.count ==> #[trigger] run_steps_ticks(s, k) == (State {
                count: (s.count + k) as u32,
                ..s
            }),
        run_steps_ticks(s, (s.interval - s.count) as nat) == (State {
            led: false,
            count: 0,
            interval: flip_spec(s.interval),
            waiting: false,
        }),
{
    assert forall|k: nat| k < s.interval - s.count implies #[trigger] run_steps_ticks(s, k)
        == (State { count: (s.count + k) as u32, ..s }) by {
        lemma_wait_before_toggle(s, k);
    }
    lemma_wait_before_toggle(s, (s.interval - s.count - 1) as nat);
}

/// The interval toggle is a two-state involution: one press moves to the
/// other preset value, a second press restores the original.
pub proof fn lemma_flip_involution(interval: u32)
    requires
        interval == NORMAL_INTERVAL || interval == FAST_INTERVAL,
    ensures
        flip_spec(flip_spec(interval)) == interval,
        flip_spec(interval) != interval,
{
}

/// A debounced press flips the interval to exactly the other preset value,
/// whatever tick activity interleaves. With the LED off the press is served
/// at once; with the LED lit the debounce task spins and completes at the
/// next LED-off toggle, the interval untouched until that moment.
pub proof fn lemma_press_flips_interval(s: State)
    requires
        inv(s),
        !s.waiting,
    ensures
        !s.led ==> edge_spec(s, true) == (State { interval: flip_spec(s.interval), ..s }),
        s.led ==> ({
            let w = edge_spec(s, true);
            let done = run_steps_ticks(w, (w.interval - w.count) as nat);
            &&& w.waiting
            &&& w.interval == s.interval
            &&& done.interval == flip_spec(s.interval)
            &&& !done.waiting
            &&& !done.led
            &&& done.count == 0
        }),
{
    if s.led {
        lemma_debounce_completes(edge_spec(s, true));
    }
}

} // verus!
