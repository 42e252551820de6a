//! The blink controller: the shared delay cell, the foreground loop's
//! decisions and the edge handler, over one device context.
use vstd::prelude::*;
use crate::speed::{is_valid_delay, next_delay, next_delay_spec, delay_after_edges, SLOW};

verus! {

/// The shared delay value. It only ever holds one of the three speeds, so a
/// read can never see anything else.
pub struct DelayCell {
    value: u32,
}

impl View for DelayCell {
    type V = u32;

    closed spec fn view(&self) -> u32 {
        self.value
    }
}

impl DelayCell {
    #[verifier::type_invariant]
    spec fn holds_speed(self) -> bool {
        is_valid_delay(self.value)
    }

    /// A cell holding the slow speed, as at program start.
    pub fn new() -> (c: DelayCell)
        ensures
            c@ == SLOW,
    {
        DelayCell { value: SLOW }
    }

    /// Reads the current delay.
    pub fn load(&self) -> (r: u32)
        ensures
            r == self@,
            is_valid_delay(r),
    {
        proof {
            use_type_invariant(self);
        }
        self.value
    }

    /// Replaces the delay by its successor: a plain read, then a plain write.
    pub fn advance(&mut self)
        ensures
            final(self)@ == next_delay_spec(old(self)@),
    {
        proof {
            use_type_invariant(&*self);
        }
        let current = self.value;
        self.value = next_delay(current);
    }
}

/// Where the foreground loop stands within one blink.
#[derive(Clone, Copy, Debug, PartialEq, Eq, Structural)]
pub enum Phase {
    LedOn,
    HoldOn,
    LedOff,
    HoldOff,
}

/// What the foreground loop does next: drive the LED pin, or busy-wait for a
/// number of cycles.
#[derive(Clone, Copy, Debug, PartialEq, Eq, Structural)]
pub enum LoopAction {
    DriveLed(bool),
    Wait(u32),
}

/// One step of the blink: LED high, wait, LED low, wait, and round again. Each
/// wait lasts the delay read at that step.
pub open spec fn loop_step_spec(phase: Phase, delay: u32) -> (Phase, LoopAction) {
    match phase {
        Phase::LedOn => (Phase::HoldOn, LoopAction::DriveLed(true)),
        Phase::HoldOn => (Phase::LedOff, LoopAction::Wait(delay)),
        Phase::LedOff => (Phase::HoldOff, LoopAction::DriveLed(false)),
        Phase::HoldOff => (Phase::LedOn, LoopAction::Wait(delay)),
    }
}

/// The foreground loop's decision at `phase`, given the delay just read.
pub fn loop_step(phase: Phase, delay: u32) -> (r: (Phase, LoopAction))
    ensures
        r == loop_step_spec(phase, delay),
{
    match phase {
        Phase::LedOn => (Phase::HoldOn, LoopAction::DriveLed(true)),
        Phase::HoldOn => (Phase::LedOff, LoopAction::Wait(delay)),
        Phase::LedOff => (Phase::HoldOff, LoopAction::DriveLed(false)),
        Phase::HoldOff => (Phase::LedOn, LoopAction::Wait(delay)),
    }
}

/// The actions of `n` loop steps from `phase` while the delay stays `delay`.
pub open spec fn blink_actions(phase: Phase, delay: u32, n: nat) -> Seq<LoopAction>
    decreases n,
{
    if n == 0 {
        Seq::empty()
    } else {
        let (next, a) = loop_step_spec(phase, delay);
        seq![a] + blink_actions(next, delay, (n - 1) as nat)
    }
}

/// With no edge, every wait of the loop lasts exactly the current delay, and
/// one blink from its start is LED high, wait, LED low, wait.
pub proof fn lemma_holds_equal_delay(phase: Phase, delay: u32, n: nat)
    ensures
        blink_actions(phase, delay, n).len() == n,
        forall|i: int|
            0 <= i < n ==> (#[trigger] blink_actions(phase, delay, n)[i] matches LoopAction::Wait(
                w,
            ) ==> w == delay),
        blink_actions(Phase::LedOn, delay, 4) == seq![
            LoopAction::DriveLed(true),
            LoopAction::Wait(delay),
            LoopAction::DriveLed(false),
            LoopAction::Wait(delay),
        ],
    decreases n,
{
    if n > 0 {
        let (next, a) = loop_step_spec(phase, delay);
        lemma_holds_equal_delay(next, delay, (n - 1) as nat);
        let rest = blink_actions(next, delay, (n - 1) as nat);
        assert forall|i: int|
            0 <= i < n implies (#[trigger] blink_actions(phase, delay, n)[i] matches LoopAction::Wait(
                w,
            ) ==> w == delay) by {
            if i > 0 {
                assert(blink_actions(phase, delay, n)[i] == rest[i - 1]);
            }
        }
    }
    reveal_with_fuel(blink_actions, 5);
    assert(blink_actions(Phase::LedOn, delay, 4) =~= seq![
        LoopAction::DriveLed(true),
        LoopAction::Wait(delay),
        LoopAction::DriveLed(false),
        LoopAction::Wait(delay),
    ]);
}

/// What happens to the shared delay, as seen from outside: a button edge is
/// handled, or the foreground loop reads the delay.
#[derive(Clone, Copy, Debug, PartialEq, Eq, Structural)]
pub enum Event {
    Edge,
    Read,
}

/// The delay after a run of events from `d`.
pub open spec fn delay_after_events(d: u32, events: Seq<Event>) -> u32
    decreases events.len(),
{
    if events.len() == 0 {
        d
    } else {
        let before = delay_after_events(d, events.drop_last());
        match events.last() {
            Event::Edge => next_delay_spec(before),
            Event::Read => before,
        }
    }
}

proof fn lemma_events_keep_speed(d: u32, events: Seq<Event>)
    requires
        is_valid_delay(d),
    ensures
        is_valid_delay(delay_after_events(d, events)),
    decreases events.len(),
{
    if events.len() > 0 {
        lemma_events_keep_speed(d, events.drop_last());
    }
}

/// However edges and reads interleave from program start, every read sees one
/// of the three speeds, and the value it sees is the slow speed moved on once
/// per edge before it.
pub proof fn lemma_reads_see_speeds(events: Seq<Event>)
    ensures
        forall|i: int|
            0 <= i < events.len() && events[i] == Event::Read ==> is_valid_delay(
                #[trigger] delay_after_events(SLOW, events.take(i)),
            ),
        forall|i: int|
            0 <= i <= events.len() ==> #[trigger] delay_after_events(SLOW, events.take(i))
                == delay_after_edges(SLOW, edge_count(events.take(i))),
{
    assert forall|i: int|
        0 <= i <= events.len() implies #[trigger] delay_after_events(SLOW, events.take(i))
        == delay_after_edges(SLOW, edge_count(events.take(i))) && is_valid_delay(
        delay_after_events(SLOW, events.take(i)),
    ) by {
        lemma_events_keep_speed(SLOW, events.take(i));
        lemma_events_count_edges(SLOW, events.take(i));
    }
}

/// The number of edges in a run of events.
pub open spec fn edge_count(events: Seq<Event>) -> nat
    decreases events.len(),
{
    if events.len() == 0 {
        0
    } else {
        edge_count(events.drop_last()) + if events.last() == Event::Edge {
            1nat
        } else {
            0nat
        }
    }
}

proof fn lemma_events_count_edges(d: u32, events: Seq<Event>)
    ensures
        delay_after_events(d, events) == delay_after_edges(d, edge_count(events)),
    decreases events.len(),
{
    if events.len() > 0 {
        lemma_events_count_edges(d, events.drop_last());
    }
}

/// A step of the edge handler, in the order it was taken.
#[derive(Clone, Copy, Debug, PartialEq, Eq, Structural)]
pub enum HandlerStep {
    Acknowledge,
    Advance { from: u32, to: u32 },
}

/// The device context that both execution contexts share: the delay cell, the
/// button line's pending flag on the interrupt controller, the LED output and
/// the loop's place within a blink.
pub struct Device {
    delay: DelayCell,
    pending: bool,
    led_high: bool,
    phase: Phase,
    steps: Ghost<Seq<HandlerStep>>,
}

impl Device {
    pub closed spec fn delay_spec(&self) -> u32 {
        self.delay@
    }

    pub closed spec fn pending_spec(&self) -> bool {
        self.pending
    }

    pub closed spec fn led_high_spec(&self) -> bool {
        self.led_high
    }

    pub closed spec fn phase_spec(&self) -> Phase {
        self.phase
    }

    /// The handler steps taken so far, oldest first.
    pub closed spec fn steps_spec(&self) -> Seq<HandlerStep> {
        self.steps@
    }

    /// The device at reset: slow speed, no edge pending, LED low, at the start
    /// of a blink.
    pub fn new() -> (d: Device)
        ensures
            d.delay_spec() == SLOW,
            !d.pending_spec(),
            !d.led_high_spec(),
            d.phase_spec() == Phase::LedOn,
            d.steps_spec() == Seq::<HandlerStep>::empty(),
    {
        Device {
            delay: DelayCell::new(),
            pending: false,
            led_high: false,
            phase: Phase::LedOn,
            steps: Ghost(Seq::empty()),
        }
    }

    /// The interrupt controller latches a rising edge on the button line.
    pub fn latch_edge(&mut self)
        ensures
            final(self).pending_spec(),
            final(self).delay_spec() == old(self).delay_spec(),
            final(self).led_high_spec() == old(self).led_high_spec(),
            final(self).phase_spec() == old(self).phase_spec(),
            final(self).steps_spec() == old(self).steps_spec(),
    {
        self.pending = true;
    }

    /// The edge handler: first clears the button line's pending flag, then
    /// moves the delay to its successor.
    pub fn on_button_edge(&mut self)
        ensures
            !final(self).pending_spec(),
            final(self).delay_spec() == next_delay_spec(old(self).delay_spec()),
            final(self).steps_spec() == old(self).steps_spec().push(
                HandlerStep::Acknowledge,
            ).push(
                (HandlerStep::Advance {
                    from: old(self).delay_spec(),
                    to: next_delay_spec(old(self).delay_spec()),
                }),
            ),
            final(self).led_high_spec() == old(self).led_high_spec(),
            final(self).phase_spec() == old(self).phase_spec(),
    {
        self.pending = false;
        proof {
            self.steps@ = self.steps@.push(HandlerStep::Acknowledge);
        }
        let from = self.delay.load();
        self.delay.advance();
        let to = self.delay.load();
        proof {
            self.steps@ = self.steps@.push(HandlerStep::Advance { from, to });
        }
    }

    /// One step of the foreground loop: reads the delay where the step waits,
    /// drives the LED where it switches, and moves on within the blink.
    pub fn run_step(&mut self) -> (a: LoopAction)
        ensures
            (final(self).phase_spec(), a) == loop_step_spec(
                old(self).phase_spec(),
                old(self).delay_spec(),
            ),
            a matches LoopAction::DriveLed(h) ==> final(self).led_high_spec() == h,
            a matches LoopAction::Wait(_) ==> final(self).led_high_spec()
                == old(self).led_high_spec(),
            final(self).delay_spec() == old(self).delay_spec(),
            final(self).pending_spec() == old(self).pending_spec(),
            final(self).steps_spec() == old(self).steps_spec(),
    {
        let delay = self.delay.load();
        let (next, action) = loop_step(self.phase, delay);
        match action {
            LoopAction::DriveLed(h) => {
                self.led_high = h;
            },
            LoopAction::Wait(_) => {},
        }
        self.phase = next;
        action
    }

    /// The current delay, as the foreground loop reads it.
    pub fn delay(&self) -> (r: u32)
        ensures
            r == self.delay_spec(),
            is_valid_delay(r),
    {
        self.delay.load()
    }

    /// Whether an edge on the button line is latched and not yet acknowledged.
    pub fn pending(&self) -> (r: bool)
        ensures
            r == self.pending_spec(),
    {
        self.pending
    }

    /// Whether the LED output is driven high.
    pub fn led_high(&self) -> (r: bool)
        ensures
            r == self.led_high_spec(),
    {
        self.led_high
    }

    /// The loop's place within the current blink.
    pub fn phase(&self) -> (r: Phase)
        ensures
            r == self.phase_spec(),
    {
        self.phase
    }
}

} // verus!
