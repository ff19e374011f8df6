use vstd::prelude::*;

use crate::history::{
    history_column, history_field, spec_column, spec_history_field, HistoryError, HistoryField,
    RocketState,
};

verus! {

/// Whether the engine still runs after a step on which the fuel check
/// reported `out_of_fuel` (the current mass at or below the dry mass).
pub open spec fn next_powered(powered: bool, out_of_fuel: bool) -> bool {
    powered && !out_of_fuel
}

/// The power state after the fuel checks of a series of steps, in order.
pub open spec fn powered_after(powered: bool, fuel_checks: Seq<bool>) -> bool
    decreases fuel_checks.len(),
{
    if fuel_checks.len() == 0 {
        powered
    } else {
        powered_after(next_powered(powered, fuel_checks[0]), fuel_checks.drop_first())
    }
}

/// The engine cannot be relit: after any series of steps the rocket is
/// powered exactly when it was powered before them and none of their fuel
/// checks found the tank empty.
pub proof fn lemma_power_latch(powered: bool, fuel_checks: Seq<bool>)
    ensures
        powered_after(powered, fuel_checks) == (powered && forall|i: int|
            0 <= i < fuel_checks.len() ==> !#[trigger] fuel_checks[i]),
    decreases fuel_checks.len(),
{
    if fuel_checks.len() > 0 {
        let rest = fuel_checks.drop_first();
        lemma_power_latch(next_powered(powered, fuel_checks[0]), rest);
        if powered && !fuel_checks[0] && (forall|i: int| 0 <= i < rest.len() ==> !#[trigger] rest[i]) {
            assert forall|i: int| 0 <= i < fuel_checks.len() implies !#[trigger] fuel_checks[i] by {
                if i > 0 {
                    assert(fuel_checks[i] == rest[i - 1]);
                }
            }
        }
        if forall|i: int| 0 <= i < fuel_checks.len() ==> !#[trigger] fuel_checks[i] {
            assert forall|i: int| 0 <= i < rest.len() implies !#[trigger] rest[i] by {
                assert(rest[i] == fuel_checks[i + 1]);
            }
        }
    }
}

/// A flight log with the result of a column query: which column was read
/// and its values, one per recorded step. Orientation values are radians.
#[derive(Clone, Debug)]
pub struct Column<S> {
    pub field: HistoryField,
    pub values: Vec<S>,
}

/// What persists of a rocket between steps and between runs, apart from its
/// physical state: whether the engine is on, and the log of recorded steps.
/// During a run it is held by the `SimRun`, which alone appends to the log.
pub struct Flight<S> {
    powered: bool,
    history: Vec<RocketState<S>>,
}

impl<S: Copy> Flight<S> {
    /// Whether the engine is on.
    pub closed spec fn spec_powered(&self) -> bool {
        self.powered
    }

    /// The recorded steps, oldest first.
    pub closed spec fn spec_history(&self) -> Seq<RocketState<S>> {
        self.history@
    }

    /// A new rocket: engine on, nothing recorded yet.
    pub fn new() -> (f: Flight<S>)
        ensures
            f.spec_powered(),
            f.spec_history() == Seq::<RocketState<S>>::empty(),
    {
        Flight { powered: true, history: Vec::new() }
    }

    /// Whether the engine is on.
    pub fn powered(&self) -> (p: bool)
        ensures
            p == self.spec_powered(),
    {
        self.powered
    }

    /// The recorded steps, oldest first.
    pub fn history(&self) -> (h: &Vec<RocketState<S>>)
        ensures
            h@ == self.spec_history(),
    {
        &self.history
    }

    /// Closes a step: records `state`, switches the engine off for good if
    /// the fuel check found the tank empty, and says whether fuel is burned
    /// on this step (exactly when the engine is still on).
    fn record_step(self, state: RocketState<S>, out_of_fuel: bool) -> (res: (Flight<S>, bool))
        ensures
            res.0.spec_history() == self.spec_history().push(state),
            res.0.spec_powered() == next_powered(self.spec_powered(), out_of_fuel),
            res.1 == res.0.spec_powered(),
    {
        let Flight { powered, mut history } = self;
        history.push(state);
        let powered = powered && !out_of_fuel;
        (Flight { powered, history }, powered)
    }

    /// Answers a `(tip, id)` query on the log: the column it names, or the
    /// error for an unknown type or component index.
    pub fn get_history(&self, tip: i8, id: i8) -> (res: Result<Column<S>, HistoryError>)
        ensures
            match spec_history_field(tip, id) {
                Ok(f) => res matches Ok(c) && c.field == f && c.values@ == spec_column(
                    self.spec_history(),
                    f,
                ),
                Err(e) => res == Err::<Column<S>, HistoryError>(e),
            },
    {
        match history_field(tip, id) {
            Ok(f) => Ok(Column { field: f, values: history_column(&self.history, f) }),
            Err(e) => Err(e),
        }
    }
}

/// The number of steps a run may take: `dur`, or none when `dur` is not positive.
pub open spec fn step_budget(dur: int) -> int {
    if dur > 0 {
        dur
    } else {
        0
    }
}

/// One simulation run of at most `dur` steps over a rocket's `Flight`.
///
/// Each cycle starts with `next_step`, which ends the run when the rocket is
/// found below the ground and otherwise hands out the index of the next step;
/// the step is then closed with `record`, which appends its state to the log
/// and applies the fuel check. So the log gains exactly one record per step
/// handed out, in step order, and the cycle count is the number of records
/// plus one for a cycle that found the rocket below the ground.
pub struct SimRun<S: Copy> {
    flight: Flight<S>,
    base: usize,
    dur: i32,
    next: i32,
    cycles: i32,
    grounded: bool,
    pending: bool,
}

impl<S: Copy> SimRun<S> {
    /// The step limit the run was started with.
    pub closed spec fn spec_dur(&self) -> int {
        self.dur as int
    }

    /// The number of steps handed out so far (their indices are 0, 1, ...).
    pub closed spec fn spec_steps(&self) -> int {
        self.next as int
    }

    /// The number of cycles started so far.
    pub closed spec fn spec_cycles(&self) -> int {
        self.cycles as int
    }

    /// Whether the run was ended by finding the rocket below the ground.
    pub closed spec fn spec_grounded(&self) -> bool {
        self.grounded
    }

    /// Whether the last step handed out still awaits its record.
    pub closed spec fn spec_pending(&self) -> bool {
        self.pending
    }

    /// The length of the log when the run started.
    pub closed spec fn spec_base(&self) -> int {
        self.base as int
    }

    /// Whether the engine is on.
    pub closed spec fn spec_powered(&self) -> bool {
        self.flight.spec_powered()
    }

    /// The log: the records from before the run, then one per recorded step.
    pub closed spec fn spec_history(&self) -> Seq<RocketState<S>> {
        self.flight.spec_history()
    }

    /// Whether no further step will be handed out.
    pub open spec fn spec_over(&self) -> bool {
        self.spec_grounded() || self.spec_steps() >= step_budget(self.spec_dur())
    }

    /// How the counters of a run relate: steps stay within the limit, every
    /// cycle but a grounding one handed out a step, and the log holds one
    /// record per step handed out, save the one awaiting its record.
    pub open spec fn accounted(&self) -> bool {
        &&& 0 <= self.spec_steps() <= step_budget(self.spec_dur())
        &&& self.spec_cycles() == self.spec_steps() + (if self.spec_grounded() { 1int } else { 0int })
        &&& self.spec_pending() ==> self.spec_steps() >= 1 && !self.spec_grounded()
        &&& 0 <= self.spec_base()
        &&& self.spec_history().len() == self.spec_base() + self.spec_steps() - (if self.spec_pending() { 1int } else { 0int })
    }

    /// A run is over exactly when it found the rocket below the ground or
    /// has handed out `dur` steps (a run with `dur` at most zero takes no
    /// step); nothing else ends it.
    pub proof fn lemma_over(&self)
        ensures
            self.spec_dur() > 0 ==> self.spec_over() == (self.spec_grounded()
                || self.spec_steps() >= self.spec_dur()),
            self.spec_dur() <= 0 ==> self.spec_over() == (self.spec_grounded()
                || self.spec_steps() >= 0),
            self.spec_dur() > 0 ==> step_budget(self.spec_dur()) == self.spec_dur(),
            self.spec_dur() <= 0 ==> step_budget(self.spec_dur()) == 0,
    {
    }

    #[verifier::type_invariant]
    closed spec fn inv(self) -> bool {
        &&& self.accounted()
        &&& self.grounded ==> self.next < step_budget(self.dur as int)
    }

    /// Starts a run of at most `dur` steps on `flight`.
    pub fn start(flight: Flight<S>, dur: i32) -> (r: SimRun<S>)
        ensures
            r.accounted(),
            r.spec_dur() == dur,
            r.spec_steps() == 0,
            r.spec_cycles() == 0,
            !r.spec_grounded(),
            !r.spec_pending(),
            r.spec_base() == flight.spec_history().len(),
            r.spec_history() == flight.spec_history(),
            r.spec_powered() == flight.spec_powered(),
    {
        let base = flight.history.len();
        SimRun { flight, base, dur, next: 0, cycles: 0, grounded: false, pending: false }
    }

    /// Starts the next cycle, if the run is not over and no step awaits its
    /// record. `below_ground` is whether the rocket's height is negative at
    /// this moment. Returns the index of the step to simulate, or `None`.
    pub fn next_step(&mut self, below_ground: bool) -> (step: Option<i32>)
        ensures
            final(self).accounted(),
            old(self).spec_over() || old(self).spec_pending() ==> {
                &&& step is None
                &&& *final(self) == *old(self)
            },
            !old(self).spec_over() && !old(self).spec_pending() ==> {
                &&& final(self).spec_cycles() == old(self).spec_cycles() + 1
                &&& final(self).spec_dur() == old(self).spec_dur()
                &&& final(self).spec_base() == old(self).spec_base()
                &&& final(self).spec_history() == old(self).spec_history()
                &&& final(self).spec_powered() == old(self).spec_powered()
            },
            !old(self).spec_over() && !old(self).spec_pending() && below_ground ==> {
                &&& step is None
                &&& final(self).spec_grounded()
                &&& !final(self).spec_pending()
                &&& final(self).spec_steps() == old(self).spec_steps()
            },
            !old(self).spec_grounded() && !old(self).spec_pending() && old(self).spec_steps()
                < old(self).spec_dur() && !below_ground ==> {
                &&& step is Some
                &&& step->0 == old(self).spec_steps()
                &&& final(self).spec_steps() == old(self).spec_steps() + 1
                &&& final(self).spec_cycles() == old(self).spec_cycles() + 1
            },
            !old(self).spec_grounded() && !old(self).spec_pending() && old(self).spec_steps()
                < old(self).spec_dur() && below_ground ==> {
                &&& step is None
                &&& final(self).spec_grounded()
                &&& final(self).spec_cycles() == old(self).spec_cycles() + 1
            },
            old(self).spec_grounded() || old(self).spec_pending() || old(self).spec_steps()
                >= old(self).spec_dur() ==> step is None,
            step is Some ==> final(self).spec_steps() <= old(self).spec_dur(),
            !old(self).spec_over() && !old(self).spec_pending() && !below_ground ==> {
                &&& step is Some
                &&& step->0 == old(self).spec_steps()
                &&& 0 <= step->0 < step_budget(old(self).spec_dur())
                &&& !final(self).spec_grounded()
                &&& final(self).spec_pending()
                &&& final(self).spec_steps() == old(self).spec_steps() + 1
            },
    {
        proof {
            use_type_invariant(&*self);
        }
        if self.grounded || self.next >= self.dur || self.pending {
            return None;
        }
        let mut run = SimRun {
            flight: Flight::new(),
            base: 0,
            dur: 0,
            next: 0,
            cycles: 0,
            grounded: false,
            pending: false,
        };
        std::mem::swap(&mut run, self);
        let SimRun { flight, base, dur, next, cycles, grounded, pending } = run;
        if below_ground {
            *self = SimRun { flight, base, dur, next, cycles: cycles + 1, grounded: true, pending };
            None
        } else {
            *self = SimRun {
                flight,
                base,
                dur,
                next: next + 1,
                cycles: cycles + 1,
                grounded,
                pending: true,
            };
            Some(next)
        }
    }

    /// Closes the step that awaits its record: appends `state` to the log,
    /// switches the engine off for good if the fuel check found the tank
    /// empty, and returns whether fuel is burned on this step (exactly when
    /// the engine is still on). With no step awaiting, nothing changes and
    /// the result is `None`.
    pub fn record(&mut self, state: RocketState<S>, out_of_fuel: bool) -> (burn: Option<bool>)
        ensures
            final(self).accounted(),
            !old(self).spec_pending() ==> burn is None && *final(self) == *old(self),
            old(self).spec_pending() ==> {
                &&& burn is Some
                &&& final(self).spec_history() == old(self).spec_history().push(state)
                &&& old(self).spec_history().len() == old(self).spec_base() + old(self).spec_steps() - 1
                &&& final(self).spec_powered() == next_powered(old(self).spec_powered(), out_of_fuel)
                &&& final(self).spec_powered() == (old(self).spec_powered() && !out_of_fuel)
                &&& burn->0 == final(self).spec_powered()
                &&& !final(self).spec_pending()
                &&& final(self).spec_steps() == old(self).spec_steps()
                &&& final(self).spec_cycles() == old(self).spec_cycles()
                &&& final(self).spec_grounded() == old(self).spec_grounded()
                &&& final(self).spec_dur() == old(self).spec_dur()
                &&& final(self).spec_base() == old(self).spec_base()
            },
    {
        proof {
            use_type_invariant(&*self);
        }
        if !self.pending {
            return None;
        }
        let mut run = SimRun {
            flight: Flight::new(),
            base: 0,
            dur: 0,
            next: 0,
            cycles: 0,
            grounded: false,
            pending: false,
        };
        std::mem::swap(&mut run, self);
        let SimRun { flight, base, dur, next, cycles, grounded, pending } = run;
        let (flight, burn) = flight.record_step(state, out_of_fuel);
        *self = SimRun { flight, base, dur, next, cycles, grounded, pending: false };
        Some(burn)
    }

    /// Whether the engine is on.
    pub fn powered(&self) -> (p: bool)
        ensures
            p == self.spec_powered(),
    {
        self.flight.powered
    }

    /// Whether the last step handed out still awaits its record.
    pub fn awaiting_record(&self) -> (b: bool)
        ensures
            b == self.spec_pending(),
    {
        self.pending
    }

    /// Whether no further step will be handed out.
    pub fn is_over(&self) -> (b: bool)
        ensures
            b == self.spec_over(),
            b == (self.spec_grounded() || self.spec_steps() >= self.spec_dur()),
    {
        proof {
            use_type_invariant(self);
        }
        self.grounded || self.next >= self.dur
    }

    /// The number of cycles started so far: the steps handed out, plus one
    /// for the cycle that found the rocket below the ground. With no step
    /// awaiting its record, that is the number of records this run made,
    /// plus that one; it never exceeds the step limit.
    pub fn cycles(&self) -> (c: i32)
        ensures
            self.accounted(),
            c == self.spec_cycles(),
            c == self.spec_steps() + (if self.spec_grounded() { 1int } else { 0int }),
            !self.spec_pending() ==> c == (self.spec_history().len() - self.spec_base()) + (if self.spec_grounded() { 1int } else { 0int }),
            0 <= c <= step_budget(self.spec_dur()),
    {
        proof {
            use_type_invariant(self);
        }
        self.cycles
    }

    /// Ends the run and hands back the rocket's `Flight` with its log.
    pub fn finish(self) -> (f: Flight<S>)
        ensures
            f.spec_history() == self.spec_history(),
            f.spec_powered() == self.spec_powered(),
    {
        let SimRun { flight, .. } = self;
        flight
    }
}

} // verus!
