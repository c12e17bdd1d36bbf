//! The mathematics of the frame clock: how elapsed time gathers while the
//! window has focus, and how it is paid out again in fixed steps.
//!
//! All durations are whole nanoseconds.

use vstd::prelude::*;

verus! {

/// Nanoseconds in one second.
pub const NANOS_PER_SEC: u64 = 1_000_000_000;

/// Length of one simulation step: a sixtieth of a second, rounded down.
pub const TARGET_DT: u64 = 16_666_666;

/// The least accumulated time that is no less than 1/61 s. From here on a
/// step is due.
pub const STEP_DUE: u64 = 16_393_443;

/// The least accumulated time that is no less than 1/59 s. Below it, a due
/// step uses the accumulated time up.
pub const FULL_STEP: u64 = 16_949_153;

/// The most steps that one real frame reports.
pub const MAX_STEPS: u64 = 3;

/// Mathematical state of the frame clock.
pub struct Clock {
    /// Time gathered and not yet consumed.
    pub accum: nat,
    /// Focus as of the latest tick.
    pub focus_previous: bool,
    /// Focus as the latest event left it.
    pub focus_current: bool,
}

/// A step is due once at least 1/61 s has gathered: slightly less than a
/// whole step, so that a frame that arrives a little early is not missed.
pub open spec fn step_due(accum: nat) -> bool {
    61 * accum >= NANOS_PER_SEC
}

/// Less than 1/59 s has gathered. A step taken here leaves nothing behind,
/// so that small remainders do not creep from frame to frame.
pub open spec fn short_of_full_step(accum: nat) -> bool {
    59 * accum < NANOS_PER_SEC
}

/// What is left of `accum` once one step is taken, if one is due.
pub open spec fn after_one_step(accum: nat) -> nat {
    if !step_due(accum) {
        accum
    } else if short_of_full_step(accum) {
        0
    } else {
        (accum - TARGET_DT) as nat
    }
}

/// How many steps are taken until none is due.
pub open spec fn steps_due(accum: nat) -> nat
    decreases accum,
{
    if step_due(accum) {
        1 + steps_due(after_one_step(accum))
    } else {
        0
    }
}

/// What is left of `accum` once no step is due any more.
pub open spec fn drained(accum: nat) -> nat
    decreases accum,
{
    if step_due(accum) {
        drained(after_one_step(accum))
    } else {
        accum
    }
}

/// The timestep that `steps` steps amount to: none for no step, and never
/// more than `MAX_STEPS` steps' worth.
pub open spec fn timestep_of(steps: nat) -> Option<u64> {
    if steps == 0 {
        None
    } else if steps > MAX_STEPS {
        Some((MAX_STEPS * TARGET_DT) as u64)
    } else {
        Some((steps * TARGET_DT) as u64)
    }
}

/// The time to sleep before the next poll: none when a step is already due,
/// else what is missing to one whole step.
pub open spec fn wait_of(accum: nat) -> Option<u64> {
    if step_due(accum) {
        None
    } else {
        Some((TARGET_DT - accum) as u64)
    }
}

/// The clock ticks only where the window had focus at the latest tick and
/// still has it.
pub open spec fn ticks(c: Clock) -> bool {
    c.focus_previous && c.focus_current
}

/// The clock after a focus event.
pub open spec fn after_focus(c: Clock, has_focus: bool) -> Clock {
    Clock { focus_current: has_focus, ..c }
}

/// The clock after the pending focus is committed.
pub open spec fn after_swap(c: Clock) -> Clock {
    Clock { focus_previous: c.focus_current, ..c }
}

/// `accum + elapsed`, held at the largest value that fits.
pub open spec fn gathered(accum: nat, elapsed: nat) -> nat {
    if accum + elapsed > u64::MAX {
        u64::MAX as nat
    } else {
        accum + elapsed
    }
}

/// The clock after a tick at which `elapsed` nanoseconds had passed since
/// the tick before.
pub open spec fn after_tick(c: Clock, elapsed: nat) -> Clock {
    Clock {
        accum: if ticks(c) {
            gathered(c.accum, elapsed)
        } else {
            0
        },
        focus_previous: c.focus_current,
        focus_current: c.focus_current,
    }
}

/// The clock after all due steps are consumed.
pub open spec fn after_consume(c: Clock) -> Clock {
    Clock { accum: drained(c.accum), ..c }
}

/// The thresholds in nanoseconds are the fractions of a second that they
/// stand for.
pub proof fn lemma_thresholds(accum: nat)
    ensures
        step_due(accum) <==> accum >= STEP_DUE,
        short_of_full_step(accum) <==> accum < FULL_STEP,
        step_due(accum) ==> after_one_step(accum) + STEP_DUE <= accum,
{
}

/// Once the due steps are consumed, none is due.
pub proof fn lemma_drained_rests(accum: nat)
    ensures
        !step_due(drained(accum)),
        drained(accum) < STEP_DUE,
        drained(accum) <= accum,
    decreases accum,
{
    lemma_thresholds(accum);
    if step_due(accum) {
        lemma_drained_rests(after_one_step(accum));
    }
}

/// While at least 1/59 s is left, whole steps come off one by one: `k` of
/// them from an accumulated time that has room for them.
pub proof fn lemma_whole_steps(accum: nat, k: nat)
    requires
        k > 0 ==> accum >= FULL_STEP + (k - 1) * TARGET_DT,
    ensures
        accum >= k * TARGET_DT,
        steps_due(accum) == k + steps_due((accum - k * TARGET_DT) as nat),
        drained(accum) == drained((accum - k * TARGET_DT) as nat),
    decreases k,
{
    lemma_thresholds(accum);
    if k > 0 {
        lemma_whole_steps(after_one_step(accum), (k - 1) as nat);
    }
}

/// The number of whole steps that come off `accum` before less than 1/59 s
/// is left.
pub open spec fn whole_steps(accum: nat) -> nat {
    if accum < FULL_STEP {
        0
    } else {
        ((accum - FULL_STEP) / TARGET_DT as int + 1) as nat
    }
}

/// The steps that are due, without counting them one by one: the whole
/// steps come off first; what is left is less than 1/59 s, and is one step
/// more if it is at least 1/61 s.
pub proof fn law_steps_in_closed_form(accum: nat)
    ensures
        ({
            let left = accum - whole_steps(accum) * TARGET_DT;
            &&& 0 <= left < FULL_STEP
            &&& accum >= FULL_STEP ==> left >= FULL_STEP - TARGET_DT
            &&& steps_due(accum) == if left >= STEP_DUE {
                whole_steps(accum) + 1
            } else {
                whole_steps(accum)
            }
            &&& drained(accum) == if left >= STEP_DUE {
                0
            } else {
                left
            }
        }),
{
    let k = whole_steps(accum);
    lemma_whole_steps(accum, k);
    let left = (accum - k * TARGET_DT) as nat;
    lemma_thresholds(left);
    assert(steps_due(0) == 0 && drained(0) == 0);
    if left >= STEP_DUE {
        assert(after_one_step(left) == 0);
        assert(steps_due(left) == 1);
        assert(drained(left) == 0);
    } else {
        assert(steps_due(left) == 0);
        assert(drained(left) == left);
    }
}

/// What can happen to the clock: the window gains or loses focus, a tick
/// arrives after some nanoseconds, or the due steps are consumed.
pub enum Input {
    Focus(bool),
    Tick(nat),
    Consume,
}

/// The clock after one input.
pub open spec fn after_input(c: Clock, input: Input) -> Clock {
    match input {
        Input::Focus(has_focus) => after_focus(c, has_focus),
        Input::Tick(elapsed) => after_tick(c, elapsed),
        Input::Consume => after_consume(c),
    }
}

/// The clock after a run of inputs, the first of them first.
pub open spec fn after_inputs(c: Clock, inputs: Seq<Input>) -> Clock
    decreases inputs.len(),
{
    if inputs.len() == 0 {
        c
    } else {
        after_input(after_inputs(c, inputs.drop_last()), inputs.last())
    }
}

/// Whatever focus events, ticks and consumptions came before, a tick that
/// does not find the window focused both at the tick before and now leaves
/// nothing accumulated.
pub proof fn law_tick_without_focus_resets(c: Clock, inputs: Seq<Input>, i: int)
    requires
        0 <= i < inputs.len(),
        inputs[i] is Tick,
        !ticks(after_inputs(c, inputs.take(i))),
    ensures
        after_inputs(c, inputs.take(i + 1)).accum == 0,
{
    let upto = inputs.take(i + 1);
    assert(upto.drop_last() == inputs.take(i));
    assert(upto.last() == inputs[i]);
}

/// A tick that finds the window focused before and now keeps what was
/// accumulated and adds the elapsed time to it.
pub proof fn law_tick_with_focus_gathers(c: Clock, elapsed: nat)
    requires
        ticks(c),
        c.accum + elapsed <= u64::MAX,
    ensures
        after_tick(c, elapsed).accum == c.accum + elapsed,
        ticks(after_tick(c, elapsed)),
{
}

/// However much time has gathered, one consumption reports at most
/// `MAX_STEPS` steps' worth, and at least one step's worth if anything.
pub proof fn law_timestep_capped(accum: nat)
    ensures
        timestep_of(steps_due(accum)) matches Some(dt) ==> TARGET_DT <= dt <= MAX_STEPS * TARGET_DT,
        timestep_of(steps_due(accum)) is Some <==> step_due(accum),
{
}

/// Consuming twice with no time in between reports nothing the second time
/// and leaves the clock as the first consumption left it.
pub proof fn law_consume_twice(c: Clock)
    ensures
        timestep_of(steps_due(after_consume(c).accum)) is None,
        after_consume(after_consume(c)) == after_consume(c),
{
    lemma_drained_rests(c.accum);
}

/// Once the due steps are consumed there is always a wait before the next
/// poll: more than nothing, and no more than one step.
pub proof fn law_wait_after_consume(accum: nat)
    ensures
        wait_of(drained(accum)) matches Some(wait) && wait + drained(accum) == TARGET_DT
            && TARGET_DT - STEP_DUE < wait <= TARGET_DT,
{
    lemma_drained_rests(accum);
}

/// Each step that is taken uses up at least 1/61 s and less than 1/59 s of
/// what had gathered.
pub proof fn law_steps_bounded(accum: nat)
    ensures
        steps_due(accum) * STEP_DUE + drained(accum) <= accum,
        accum <= steps_due(accum) * FULL_STEP + drained(accum),
    decreases accum,
{
    lemma_thresholds(accum);
    if step_due(accum) {
        law_steps_bounded(after_one_step(accum));
        assert((1 + steps_due(after_one_step(accum))) * STEP_DUE == STEP_DUE + steps_due(
            after_one_step(accum),
        ) * STEP_DUE) by (nonlinear_arith);
        assert((1 + steps_due(after_one_step(accum))) * FULL_STEP == FULL_STEP + steps_due(
            after_one_step(accum),
        ) * FULL_STEP) by (nonlinear_arith);
    }
}

/// The simulation does not run ahead of the time that passed by more than
/// the early threshold allows: a timestep is at most 1/60 s for every 1/61 s
/// of accumulated time that was consumed for it.
pub proof fn law_timestep_within_consumed(accum: nat)
    ensures
        timestep_of(steps_due(accum)) matches Some(dt) ==> dt * STEP_DUE <= TARGET_DT * (accum
            - drained(accum)),
{
    law_steps_bounded(accum);
}

} // verus!
