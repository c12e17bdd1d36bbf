//! The frame clock as a value: runs a simulation at 60 steps per second while
//! the window has focus, whatever the rate at which real frames arrive.
//!
//! All durations are whole nanoseconds.

use crate::clock::after_consume;
use crate::clock::after_focus;
use crate::clock::after_one_step;
use crate::clock::after_swap;
use crate::clock::after_tick;
use crate::clock::drained;
use crate::clock::law_steps_in_closed_form;
use crate::clock::lemma_drained_rests;
use crate::clock::lemma_thresholds;
use crate::clock::step_due;
use crate::clock::steps_due;
use crate::clock::ticks;
use crate::clock::timestep_of;
use crate::clock::wait_of;
use crate::clock::Clock;
use crate::clock::FULL_STEP;
use crate::clock::MAX_STEPS;
use crate::clock::STEP_DUE;
use crate::clock::TARGET_DT;
use std::time::Duration;
use std::time::Instant;
use vstd::prelude::*;

verus! {

/// A point on the monotonic clock. Nothing inside it is visible here.
#[verifier::external_type_specification]
#[verifier::external_body]
pub struct ExInstant(std::time::Instant);

/// `Instant::now` reads the monotonic clock. Nothing is claimed of what it
/// returns.
pub assume_specification[ std::time::Instant::now ]() -> Instant;

/// `Instant::saturating_duration_since` gives the time from `earlier` to
/// `later`, or zero where `earlier` is the later one. Nothing is claimed of
/// what it returns.
pub assume_specification[ std::time::Instant::saturating_duration_since ](
    later: &Instant,
    earlier: Instant,
) -> Duration;

/// `Duration::as_nanos` gives a duration in whole nanoseconds. Nothing is
/// claimed of what it returns.
pub assume_specification[ std::time::Duration::as_nanos ](duration: &Duration) -> u128;

/// A count of nanoseconds, held at the largest value that fits in 64 bits.
fn saturate(nanos: u128) -> (held: u64)
    ensures
        held == if nanos > u64::MAX {
            u64::MAX
        } else {
            nanos as u64
        },
{
    if nanos > u64::MAX as u128 {
        u64::MAX
    } else {
        nanos as u64
    }
}

/// How long the loop sleeps between polls while the window has no focus.
pub const IDLE_NAP: u64 = 200_000_000;

/// What the windowing layer reports, as far as the frame loop reads it.
#[derive(Debug, Clone, Copy, PartialEq, Eq, Structural)]
pub enum Event {
    /// The program is asked to end.
    Quit,
    /// The window gained keyboard focus.
    FocusGained,
    /// The window lost keyboard focus.
    FocusLost,
    /// The window's size changed.
    Resized,
    /// Anything else.
    Other,
}

/// What the frame loop does with one real frame.
#[derive(Debug, Clone, Copy, PartialEq, Eq, Structural)]
pub enum Frame {
    /// A quit was polled: leave the loop.
    Quit,
    /// The window is not in steady focus: sleep for `nap`, then poll again.
    Idle { nap: u64 },
    /// Update and render with `dt` where there is one, then sleep for `wait`
    /// and poll again.
    Run { dt: Option<u64>, wait: u64 },
}

/// The clock after one window event.
pub open spec fn after_event(c: Clock, event: Event) -> Clock {
    match event {
        Event::FocusGained => after_focus(c, true),
        Event::FocusLost => after_focus(c, false),
        _ => c,
    }
}

/// The clock after a batch of window events, the first of them first.
pub open spec fn after_events(c: Clock, events: Seq<Event>) -> Clock
    decreases events.len(),
{
    if events.len() == 0 {
        c
    } else {
        after_event(after_events(c, events.drop_last()), events.last())
    }
}

/// The clock after one real frame: the batch is polled to its end, and
/// unless a quit was in it the clock ticks and the due steps are consumed.
pub open spec fn after_frame(c: Clock, events: Seq<Event>, elapsed: nat) -> Clock {
    let polled = after_events(c, events);
    if events.contains(Event::Quit) {
        polled
    } else {
        after_consume(after_tick(polled, elapsed))
    }
}

/// What the loop does with one real frame.
pub open spec fn frame_of(c: Clock, events: Seq<Event>, elapsed: nat) -> Frame {
    let polled = after_events(c, events);
    let gathered = after_tick(polled, elapsed).accum;
    if events.contains(Event::Quit) {
        Frame::Quit
    } else if !ticks(polled) {
        Frame::Idle { nap: IDLE_NAP }
    } else {
        Frame::Run {
            dt: timestep_of(steps_due(gathered)),
            wait: (TARGET_DT - drained(gathered)) as u64,
        }
    }
}

/// Reading one event more of a batch: the clock takes that event, and a
/// quit has been seen if it was seen before or this is one.
pub proof fn lemma_batch_grows(c: Clock, events: Seq<Event>, i: int)
    requires
        0 <= i < events.len(),
    ensures
        after_events(c, events.take(i + 1)) == after_event(
            after_events(c, events.take(i)),
            events[i],
        ),
        events.take(i + 1).contains(Event::Quit) <==> events.take(i).contains(Event::Quit)
            || events[i] == Event::Quit,
{
    let before = events.take(i);
    let upto = events.take(i + 1);
    assert(upto.drop_last() == before);
    assert(upto.last() == events[i]);
    if upto.contains(Event::Quit) {
        let k = choose|k: int| 0 <= k < upto.len() && upto[k] == Event::Quit;
        if k < i {
            assert(before[k] == Event::Quit);
        }
    }
    if before.contains(Event::Quit) {
        let k = choose|k: int| 0 <= k < before.len() && before[k] == Event::Quit;
        assert(upto[k] == Event::Quit);
    }
    if events[i] == Event::Quit {
        assert(upto[i] == Event::Quit);
    }
}

/// Utility for updating the game at 60 FPS while the window has focus.
#[derive(Debug)]
pub struct GameRunner {
    target_dt: u64,
    now: Instant,
    accum: u64,
    focus_previous: bool,
    focus_current: bool,
}

impl View for GameRunner {
    type V = Clock;

    closed spec fn view(&self) -> Clock {
        Clock {
            accum: self.accum as nat,
            focus_previous: self.focus_previous,
            focus_current: self.focus_current,
        }
    }
}

impl GameRunner {
    #[verifier::type_invariant]
    spec fn well_formed(&self) -> bool {
        self.target_dt == TARGET_DT
    }

    /// A clock that starts now, with nothing accumulated and without focus.
    pub fn new() -> (runner: Self)
        ensures
            runner@ == (Clock { accum: 0, focus_previous: false, focus_current: false }),
    {
        Self {
            target_dt: TARGET_DT,
            now: Instant::now(),
            accum: 0,
            focus_previous: false,
            focus_current: false,
        }
    }

    /// Length of one simulation step.
    pub fn target_dt(&self) -> (dt: u64)
        ensures
            dt == TARGET_DT,
    {
        proof {
            use_type_invariant(self);
        }
        self.target_dt
    }

    /// Time gathered and not yet consumed.
    pub fn accumulated(&self) -> (accum: u64)
        ensures
            accum == self@.accum,
    {
        self.accum
    }

    /// Focus as of the latest tick, then focus as the latest event left it.
    pub fn focus(&self) -> (pair: (bool, bool))
        ensures
            pair == (self@.focus_previous, self@.focus_current),
    {
        (self.focus_previous, self.focus_current)
    }

    /// Notes that the window gained or lost focus. The clock acts on it at
    /// its next tick, not before.
    pub fn set_focus(&mut self, has_focus: bool)
        ensures
            final(self)@ == after_focus(old(self)@, has_focus),
    {
        proof {
            use_type_invariant(&*self);
        }
        self.focus_current = has_focus;
    }

    /// Watches the window's focus in what the windowing layer reports.
    pub fn event(&mut self, ev: &Event)
        ensures
            final(self)@ == after_event(old(self)@, *ev),
    {
        match ev {
            Event::FocusLost => {
                self.set_focus(false);
            },
            Event::FocusGained => {
                self.set_focus(true);
            },
            _ => {},
        }
    }

    /// Watches the window's focus in a whole batch of events, and says
    /// whether a quit was among them. The batch is read to its end even
    /// where a quit comes early in it.
    pub fn poll(&mut self, events: &[Event]) -> (quit: bool)
        ensures
            final(self)@ == after_events(old(self)@, events@),
            quit == events@.contains(Event::Quit),
    {
        let mut quit = false;
        let mut i: usize = 0;
        while i < events.len()
            invariant
                i <= events@.len(),
                self@ == after_events(old(self)@, events@.take(i as int)),
                quit == events@.take(i as int).contains(Event::Quit),
            decreases events@.len() - i,
        {
            let ev = events[i];
            proof {
                lemma_batch_grows(old(self)@, events@, i as int);
            }
            match ev {
                Event::Quit => {
                    quit = true;
                },
                _ => {},
            }
            self.event(&ev);
            i += 1;
        }
        proof {
            assert(events@.take(i as int) == events@);
        }
        quit
    }

    /// Reads the monotonic clock: the nanoseconds since it was last read
    /// here, held at the largest value that fits.
    fn lap(&mut self) -> (elapsed: u64)
        ensures
            final(self)@ == old(self)@,
    {
        proof {
            use_type_invariant(&*self);
        }
        let next = Instant::now();
        let elapsed = saturate(next.saturating_duration_since(self.now).as_nanos());
        self.now = next;
        elapsed
    }

    /// The part of a frame that follows a batch without a quit: ticks,
    /// consumes the due steps, and says what the loop does next.
    fn paced(&mut self, elapsed: u64) -> (frame: Frame)
        ensures
            final(self)@ == after_consume(after_tick(old(self)@, elapsed as nat)),
            frame == if !ticks(old(self)@) {
                Frame::Idle { nap: IDLE_NAP }
            } else {
                Frame::Run {
                    dt: timestep_of(steps_due(after_tick(old(self)@, elapsed as nat).accum)),
                    wait: (TARGET_DT - final(self)@.accum) as u64,
                }
            },
            final(self)@.accum < STEP_DUE,
    {
        if !self.advance(elapsed) {
            assert(drained(0) == 0);
            return Frame::Idle { nap: IDLE_NAP };
        }
        proof {
            lemma_drained_rests(self@.accum);
        }
        let dt = self.consume_timestep();
        let wait = self.wait_duration().unwrap();
        Frame::Run { dt, wait }
    }

    /// One turn of the frame loop, given the batch of events just polled and
    /// the nanoseconds that passed since the tick before: polls, ticks,
    /// consumes the due steps, and says what the loop does next.
    pub fn next_frame_after(&mut self, events: &[Event], elapsed: u64) -> (frame: Frame)
        ensures
            frame == frame_of(old(self)@, events@, elapsed as nat),
            final(self)@ == after_frame(old(self)@, events@, elapsed as nat),
            frame matches Frame::Run { dt, wait } ==> {
                &&& TARGET_DT - STEP_DUE < wait <= TARGET_DT
                &&& dt matches Some(d) ==> TARGET_DT <= d <= MAX_STEPS * TARGET_DT
            },
    {
        if self.poll(events) {
            Frame::Quit
        } else {
            self.paced(elapsed)
        }
    }

    /// One turn of the frame loop by the time that really passed since the
    /// tick before: `next_frame_after` with what the monotonic clock reports.
    pub fn next_frame(&mut self, events: &[Event]) -> (frame: Frame)
        ensures
            exists|elapsed: nat|
                frame == frame_of(old(self)@, events@, elapsed) && final(self)@ == after_frame(
                    old(self)@,
                    events@,
                    elapsed,
                ),
            frame is Quit <==> events@.contains(Event::Quit),
    {
        if self.poll(events) {
            assert(Frame::Quit == frame_of(old(self)@, events@, 0) && self@ == after_frame(
                old(self)@,
                events@,
                0,
            ));
            Frame::Quit
        } else {
            let elapsed = self.lap();
            let frame = self.paced(elapsed);
            assert(frame == frame_of(old(self)@, events@, elapsed as nat) && self@ == after_frame(
                old(self)@,
                events@,
                elapsed as nat,
            ));
            frame
        }
    }

    /// Commits the pending focus, and says whether the window had focus
    /// before and still has it.
    pub fn swap_focus_bufs(&mut self) -> (tick: bool)
        ensures
            tick == ticks(old(self)@),
            final(self)@ == after_swap(old(self)@),
    {
        proof {
            use_type_invariant(&*self);
        }
        let tick = self.focus_previous && self.focus_current;
        self.focus_previous = self.focus_current;
        tick
    }

    /// One tick of the clock, given the nanoseconds that passed since the
    /// tick before. With focus kept, they are added to the accumulated time
    /// and the frame should be simulated; on any change of focus, and while
    /// the window stays without focus, the accumulated time is dropped and
    /// the frame should not be simulated.
    pub fn advance(&mut self, elapsed: u64) -> (tick: bool)
        ensures
            tick == ticks(old(self)@),
            final(self)@ == after_tick(old(self)@, elapsed as nat),
            !tick ==> final(self)@.accum == 0,
    {
        proof {
            use_type_invariant(&*self);
        }
        let tick = self.swap_focus_bufs();
        proof {
            use_type_invariant(&*self);
        }
        if tick {
            self.accum = self.accum.saturating_add(elapsed);
        } else {
            self.accum = 0;
        }
        tick
    }

    /// One tick of the clock by the time that really passed since the tick
    /// before: `advance` with what the monotonic clock reports.
    pub fn update(&mut self) -> (tick: bool)
        ensures
            tick == ticks(old(self)@),
            exists|elapsed: nat| final(self)@ == after_tick(old(self)@, elapsed),
            !tick ==> final(self)@.accum == 0,
    {
        let elapsed = self.lap();
        let tick = self.advance(elapsed);
        assert(self@ == after_tick(old(self)@, elapsed as nat));
        tick
    }

    /// Takes one step from the accumulated time if one is due, and says
    /// whether it did.
    pub fn consume_one_step(&mut self) -> (stepped: bool)
        ensures
            stepped == step_due(old(self)@.accum),
            final(self)@ == (Clock { accum: after_one_step(old(self)@.accum), ..old(self)@ }),
    {
        proof {
            use_type_invariant(&*self);
            lemma_thresholds(self@.accum);
        }
        if self.accum >= STEP_DUE {
            if self.accum < FULL_STEP {
                self.accum = 0;
            } else {
                self.accum -= TARGET_DT;
            }
            true
        } else {
            false
        }
    }

    /// Consumes every step that is due and reports them as one timestep: the
    /// steps' worth of time, but never more than `MAX_STEPS` steps' worth,
    /// and nothing where no step was due. It is as if `consume_one_step`
    /// were called until it takes no more step; the steps are not taken one
    /// by one, though, so a long stall costs no more than a short one.
    pub fn consume_timestep(&mut self) -> (dt: Option<u64>)
        ensures
            dt == timestep_of(steps_due(old(self)@.accum)),
            final(self)@ == after_consume(old(self)@),
            dt is Some <==> step_due(old(self)@.accum),
            dt matches Some(d) ==> TARGET_DT <= d <= MAX_STEPS * TARGET_DT,
            !step_due(final(self)@.accum),
    {
        proof {
            use_type_invariant(&*self);
            law_steps_in_closed_form(self@.accum);
        }
        let whole: u64 = if self.accum < FULL_STEP {
            0
        } else {
            (self.accum - FULL_STEP) / TARGET_DT + 1
        };
        let left = self.accum - whole * TARGET_DT;
        let n_steps = if left >= STEP_DUE {
            self.accum = 0;
            whole + 1
        } else {
            self.accum = left;
            whole
        };
        if n_steps > MAX_STEPS {
            // limit the length of update
            Some(self.target_dt * MAX_STEPS)
        } else if n_steps > 0 {
            // update only once, but with a `dt` proportional to the number of steps
            Some(self.target_dt * n_steps)
        } else {
            None
        }
    }

    /// The time to sleep before the next poll: nothing where a step is
    /// already due, else what is missing to one whole step.
    pub fn wait_duration(&self) -> (wait: Option<u64>)
        ensures
            wait == wait_of(self@.accum),
            wait is None <==> step_due(self@.accum),
            wait matches Some(w) ==> w + self@.accum == TARGET_DT,
    {
        proof {
            use_type_invariant(self);
            lemma_thresholds(self@.accum);
        }
        if self.accum >= STEP_DUE {
            None
        } else {
            Some(self.target_dt - self.accum)
        }
    }
}

} // verus!
