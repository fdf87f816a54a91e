//! The outer driver: the order of the stages within one outer iteration, the
//! running/diverged state machine, and the decision to go on iterating.

use vstd::prelude::*;

verus! {

/// Relaxation sweeps given to each momentum component per outer iteration.
pub const MOMENTUM_SWEEPS: usize = 4;

/// Sweeps given to the pressure-correction system per outer iteration.
pub const PRESSURE_SWEEPS: usize = 20;

/// One stage of an outer SIMPLE iteration.
#[derive(Clone, Copy, Debug, PartialEq, Eq, Structural)]
pub enum Stage {
    /// Assemble momentum links, central coefficients and sources.
    MomentumLinks,
    /// Record the `u` residual, then relax `u`.
    SolveU,
    /// Record the `v` residual, then relax `v`.
    SolveV,
    /// Interpolate face velocities from the new cell velocities.
    FaceVelocities,
    /// Assemble pressure-correction links and the mass-imbalance source.
    PressureLinks,
    /// Record the pressure residual, zero the correction, then solve for it.
    SolvePressure,
    /// Correct the cell velocities by the pressure-correction gradient.
    CorrectCellVelocities,
    /// Correct the face velocities by the same gradient.
    CorrectFaceVelocities,
    /// Add the relaxed correction to the pressure.
    CorrectPressure,
}

/// The stages of one outer iteration, in the order in which they run.
pub open spec fn schedule() -> Seq<Stage> {
    seq![
        Stage::MomentumLinks,
        Stage::SolveU,
        Stage::SolveV,
        Stage::FaceVelocities,
        Stage::PressureLinks,
        Stage::SolvePressure,
        Stage::CorrectCellVelocities,
        Stage::CorrectFaceVelocities,
        Stage::CorrectPressure,
    ]
}

/// Where a stage stands in the schedule.
pub open spec fn position(s: Stage) -> int {
    match s {
        Stage::MomentumLinks => 0,
        Stage::SolveU => 1,
        Stage::SolveV => 2,
        Stage::FaceVelocities => 3,
        Stage::PressureLinks => 4,
        Stage::SolvePressure => 5,
        Stage::CorrectCellVelocities => 6,
        Stage::CorrectFaceVelocities => 7,
        Stage::CorrectPressure => 8,
    }
}

/// The stage that follows `s`, or `None` after the last.
pub open spec fn following(s: Stage) -> Option<Stage> {
    if position(s) + 1 < schedule().len() {
        Some(schedule()[position(s) + 1])
    } else {
        None
    }
}

/// Sweeps of the linear solver that a stage runs (none outside the solves).
pub open spec fn sweeps_of(s: Stage) -> int {
    match s {
        Stage::SolveU | Stage::SolveV => MOMENTUM_SWEEPS as int,
        Stage::SolvePressure => PRESSURE_SWEEPS as int,
        _ => 0,
    }
}

impl Stage {
    /// The stage that begins every outer iteration.
    pub fn first() -> (r: Stage)
        ensures
            r == schedule()[0],
    {
        Stage::MomentumLinks
    }

    /// The stage to run after this one, or `None` when the iteration is done.
    pub fn next(self) -> (r: Option<Stage>)
        ensures
            r == following(self),
    {
        match self {
            Stage::MomentumLinks => Some(Stage::SolveU),
            Stage::SolveU => Some(Stage::SolveV),
            Stage::SolveV => Some(Stage::FaceVelocities),
            Stage::FaceVelocities => Some(Stage::PressureLinks),
            Stage::PressureLinks => Some(Stage::SolvePressure),
            Stage::SolvePressure => Some(Stage::CorrectCellVelocities),
            Stage::CorrectCellVelocities => Some(Stage::CorrectFaceVelocities),
            Stage::CorrectFaceVelocities => Some(Stage::CorrectPressure),
            Stage::CorrectPressure => None,
        }
    }

    /// How many linear-solver sweeps this stage runs.
    pub fn sweeps(self) -> (r: usize)
        ensures
            r == sweeps_of(self),
    {
        match self {
            Stage::SolveU | Stage::SolveV => MOMENTUM_SWEEPS,
            Stage::SolvePressure => PRESSURE_SWEEPS,
            _ => 0,
        }
    }

    /// Whether this stage records a residual before it solves.
    pub fn records_residual(self) -> (r: bool)
        ensures
            r <==> (self == Stage::SolveU || self == Stage::SolveV || self
                == Stage::SolvePressure),
    {
        match self {
            Stage::SolveU | Stage::SolveV | Stage::SolvePressure => true,
            _ => false,
        }
    }
}

/// Following `next` from `first` runs every stage once, in schedule order,
/// and then stops.
pub proof fn lemma_schedule_walk(k: int)
    requires
        0 <= k < schedule().len(),
    ensures
        position(schedule()[k]) == k,
        following(schedule()[k]) == (if k + 1 < schedule().len() {
            Some(schedule()[k + 1])
        } else {
            None::<Stage>
        }),
{
}

/// The two states of the outer driver.
#[derive(Clone, Copy, Debug, PartialEq, Eq, Structural)]
pub enum Status {
    Running,
    Diverged,
}

/// The state after one outer iteration whose velocity sum was or was not
/// a number.
pub open spec fn transition(s: Status, velocity_sum_is_nan: bool) -> Status {
    if s == Status::Running && !velocity_sum_is_nan {
        Status::Running
    } else {
        Status::Diverged
    }
}

/// The state after a run of outer iterations, one event each.
pub open spec fn status_after(s: Status, events: Seq<bool>) -> Status
    decreases events.len(),
{
    if events.len() == 0 {
        s
    } else {
        status_after(transition(s, events[0]), events.drop_first())
    }
}

impl Status {
    /// The state after an outer iteration; divergence is final.
    pub fn after_iteration(self, velocity_sum_is_nan: bool) -> (r: Status)
        ensures
            r == transition(self, velocity_sum_is_nan),
    {
        if self == Status::Running && !velocity_sum_is_nan {
            Status::Running
        } else {
            Status::Diverged
        }
    }

    /// The liveness flag that an outer iteration reports.
    pub fn is_running(self) -> (r: bool)
        ensures
            r <==> self == Status::Running,
    {
        self == Status::Running
    }
}

/// Once diverged the driver stays diverged, and a running driver is still
/// running after a run of iterations exactly when none of them produced a
/// velocity sum that is not a number.
pub proof fn lemma_divergence_is_final(s: Status, events: Seq<bool>)
    ensures
        s == Status::Diverged ==> status_after(s, events) == Status::Diverged,
        s == Status::Running ==> (status_after(s, events) == Status::Running <==> forall|k: int|
            0 <= k < events.len() ==> !#[trigger] events[k]),
    decreases events.len(),
{
    if events.len() > 0 {
        let rest = events.drop_first();
        lemma_divergence_is_final(transition(s, events[0]), rest);
        if s == Status::Running && status_after(s, events) != Status::Running {
            if !events[0] {
                assert(!(forall|k: int| 0 <= k < rest.len() ==> !#[trigger] rest[k]));
                let k = choose|k: int| 0 <= k < rest.len() && #[trigger] rest[k];
                assert(events[k + 1]);
            }
        }
        if s == Status::Running && status_after(s, events) == Status::Running {
            assert forall|k: int| 0 <= k < events.len() implies !#[trigger] events[k] by {
                if k > 0 {
                    assert(rest[k - 1] == events[k]);
                }
            }
        }
    }
}

/// The outer loop's bookkeeping: how many iterations were made, how many are
/// allowed, and the driver's state.
#[derive(Clone, Copy, Debug, PartialEq, Eq, Structural)]
pub struct Run {
    pub iterations: usize,
    pub cap: usize,
    pub status: Status,
}

impl Run {
    pub open spec fn wf(&self) -> bool {
        self.iterations <= self.cap
    }

    /// A run that has made no iteration yet and may make up to `cap`.
    pub fn new(cap: usize) -> (r: Run)
        ensures
            r.iterations == 0,
            r.cap == cap,
            r.status == Status::Running,
            r.wf(),
    {
        Run { iterations: 0, cap, status: Status::Running }
    }

    /// Whether to make another outer iteration: the driver still runs, the
    /// cap is not reached, and the last relative change of the velocity sum
    /// was above the threshold.
    pub fn should_continue(&self, change_above_threshold: bool) -> (r: bool)
        ensures
            r <==> (self.status == Status::Running && self.iterations < self.cap
                && change_above_threshold),
    {
        self.status.is_running() && self.iterations < self.cap && change_above_threshold
    }

    /// Counts one outer iteration and returns its liveness flag.
    pub fn record(&mut self, velocity_sum_is_nan: bool) -> (alive: bool)
        requires
            old(self).wf(),
            old(self).iterations < old(self).cap,
        ensures
            final(self).iterations == old(self).iterations + 1,
            final(self).cap == old(self).cap,
            final(self).status == transition(old(self).status, velocity_sum_is_nan),
            alive <==> final(self).status == Status::Running,
            final(self).wf(),
    {
        self.iterations = self.iterations + 1;
        self.status = self.status.after_iteration(velocity_sum_is_nan);
        self.status.is_running()
    }
}

} // verus!
