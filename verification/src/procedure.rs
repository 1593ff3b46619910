use vstd::prelude::*;

use crate::command::{OperationalState, Reading, Request, Response};
use crate::config::DeviceMode;
use crate::error::Error;

verus! {

/// The driver operations that take several exchanges with the sensor.
#[derive(Debug, Clone, Copy, PartialEq, Eq, Structural)]
pub enum Routine {
    /// Bring the sensor into the configured reporting mode.
    Init,
    /// Take one measurement.
    ReadSample,
}

/// Where a procedure stands.
#[derive(Debug, Clone, Copy, PartialEq, Eq)]
pub enum Phase {
    /// The serial interface is to be flushed first.
    Flushing,
    /// The request at this index of the plan is to be exchanged next.
    Exchanging(usize),
    /// The procedure is over, with this result.
    Finished(Result<Option<Reading>, Error>),
}

/// What the code that talks to the serial interface should do next.
#[derive(Debug, Clone, Copy, PartialEq, Eq)]
pub enum Action {
    /// Flush the serial interface, then report with `Procedure::on_flushed`.
    Flush,
    /// Send the request, receive the reply, and report what it means with
    /// `Procedure::on_response`.
    Send(Request),
    /// Stop: the procedure ended with this result (a measurement for
    /// `ReadSample`, nothing for `Init`).
    Done(Result<Option<Reading>, Error>),
}

/// The state of a procedure, as the contracts speak of it.
pub struct ProcedureState {
    pub routine: Routine,
    pub mode: DeviceMode,
    pub phase: Phase,
    pub sample: Option<Reading>,
}

/// The requests that a routine exchanges, in order, for a sensor in reporting mode `mode`.
///
/// `Init` sets the reporting mode, then puts a passive sensor to sleep or
/// sets an active sensor to continuous working (period `0`). `ReadSample`
/// queries a measurement; a passive sensor is woken up before and put back
/// to sleep after.
pub open spec fn plan(routine: Routine, mode: DeviceMode) -> Seq<Request> {
    match routine {
        Routine::Init => seq![
            Request::SetReportingMode(mode),
            if mode == DeviceMode::Passive {
                Request::SetOperationalState(OperationalState::Sleeping)
            } else {
                Request::SetWorkingPeriod(0)
            },
        ],
        Routine::ReadSample => if mode == DeviceMode::Passive {
            seq![
                Request::SetOperationalState(OperationalState::Working),
                Request::QueryData,
                Request::SetOperationalState(OperationalState::Sleeping),
            ]
        } else {
            seq![Request::QueryData]
        },
    }
}

/// Whether a state points into its plan.
pub open spec fn state_wf(s: ProcedureState) -> bool {
    s.phase matches Phase::Exchanging(k) ==> k < plan(s.routine, s.mode).len()
}

/// The state in which a routine starts: `Init` flushes first, `ReadSample` exchanges at once.
pub open spec fn initial_state(routine: Routine, mode: DeviceMode) -> ProcedureState {
    ProcedureState {
        routine,
        mode,
        phase: match routine {
            Routine::Init => Phase::Flushing,
            Routine::ReadSample => Phase::Exchanging(0),
        },
        sample: None,
    }
}

/// The action that a state calls for.
pub open spec fn action_of(s: ProcedureState) -> Action {
    match s.phase {
        Phase::Flushing => Action::Flush,
        Phase::Exchanging(k) => Action::Send(plan(s.routine, s.mode)[k as int]),
        Phase::Finished(r) => Action::Done(r),
    }
}

/// The same state in another phase.
pub open spec fn with_phase(s: ProcedureState, phase: Phase) -> ProcedureState {
    ProcedureState { routine: s.routine, mode: s.mode, phase, sample: s.sample }
}

/// The state after a flush that succeeded (`ok`) or failed; a state that
/// does not wait for a flush stays as it is.
pub open spec fn after_flush(s: ProcedureState, ok: bool) -> ProcedureState {
    match s.phase {
        Phase::Flushing => if ok {
            with_phase(s, Phase::Exchanging(0))
        } else {
            with_phase(s, Phase::Finished(Err(Error::WriteFailure)))
        },
        _ => s,
    }
}

/// What a routine returns once all its exchanges succeeded.
pub open spec fn routine_output(routine: Routine, sample: Option<Reading>) -> Option<Reading> {
    match routine {
        Routine::Init => None,
        Routine::ReadSample => sample,
    }
}

/// The state after the exchange of the pending request ended with `r`: an
/// error ends the procedure with that error; a data query whose answer is no
/// measurement ends it with `InvalidFrame`; otherwise the next request is
/// due, or the procedure succeeds after the last one. A state that waits for
/// no reply stays as it is.
pub open spec fn after_response(s: ProcedureState, r: Result<Response, Error>) -> ProcedureState {
    match s.phase {
        Phase::Exchanging(k) => match r {
            Err(e) => with_phase(s, Phase::Finished(Err(e))),
            Ok(resp) => {
                let steps = plan(s.routine, s.mode);
                let req = steps[k as int];
                let sample = match resp {
                    Response::Sample(x) => Some(x),
                    _ => None,
                };
                if req == Request::QueryData && sample is None {
                    with_phase(s, Phase::Finished(Err(Error::InvalidFrame)))
                } else {
                    let kept = if req == Request::QueryData {
                        sample
                    } else {
                        s.sample
                    };
                    ProcedureState {
                        routine: s.routine,
                        mode: s.mode,
                        phase: if k + 1 == steps.len() {
                            Phase::Finished(Ok(routine_output(s.routine, kept)))
                        } else {
                            Phase::Exchanging((k + 1) as usize)
                        },
                        sample: kept,
                    }
                }
            },
        },
        _ => s,
    }
}

/// A running `Init` or `ReadSample` operation: it says which exchange with
/// the sensor comes next, and takes the outcome of each.
pub struct Procedure {
    routine: Routine,
    mode: DeviceMode,
    phase: Phase,
    sample: Option<Reading>,
}

impl View for Procedure {
    type V = ProcedureState;

    closed spec fn view(&self) -> ProcedureState {
        ProcedureState {
            routine: self.routine,
            mode: self.mode,
            phase: self.phase,
            sample: self.sample,
        }
    }
}

/// The number of requests in a routine's plan.
fn plan_len(routine: Routine, mode: DeviceMode) -> (r: usize)
    ensures
        r == plan(routine, mode).len(),
{
    match routine {
        Routine::Init => 2,
        Routine::ReadSample => match mode {
            DeviceMode::Passive => 3,
            DeviceMode::Active => 1,
        },
    }
}

/// The request at index `k` of a routine's plan.
fn plan_step(routine: Routine, mode: DeviceMode, k: usize) -> (r: Request)
    requires
        k < plan(routine, mode).len(),
    ensures
        r == plan(routine, mode)[k as int],
{
    match routine {
        Routine::Init => {
            if k == 0 {
                Request::SetReportingMode(mode)
            } else {
                match mode {
                    DeviceMode::Passive => Request::SetOperationalState(OperationalState::Sleeping),
                    DeviceMode::Active => Request::SetWorkingPeriod(0),
                }
            }
        },
        Routine::ReadSample => match mode {
            DeviceMode::Passive => {
                if k == 0 {
                    Request::SetOperationalState(OperationalState::Working)
                } else if k == 1 {
                    Request::QueryData
                } else {
                    Request::SetOperationalState(OperationalState::Sleeping)
                }
            },
            DeviceMode::Active => Request::QueryData,
        },
    }
}

impl Procedure {
    #[verifier::type_invariant]
    spec fn inv(self) -> bool {
        state_wf(self@)
    }

    /// Starts `routine` for a sensor in reporting mode `mode`.
    pub fn new(routine: Routine, mode: DeviceMode) -> (r: Procedure)
        ensures
            r@ == initial_state(routine, mode),
    {
        let phase = match routine {
            Routine::Init => Phase::Flushing,
            Routine::ReadSample => Phase::Exchanging(0),
        };
        Procedure { routine, mode, phase, sample: None }
    }

    /// What to do now.
    pub fn action(&self) -> (r: Action)
        ensures
            r == action_of(self@),
    {
        proof {
            use_type_invariant(self);
        }
        match self.phase {
            Phase::Flushing => Action::Flush,
            Phase::Exchanging(k) => Action::Send(plan_step(self.routine, self.mode, k)),
            Phase::Finished(r) => Action::Done(r),
        }
    }

    /// Takes the outcome of a flush.
    pub fn on_flushed(&mut self, ok: bool)
        ensures
            final(self)@ == after_flush(old(self)@, ok),
    {
        proof {
            use_type_invariant(&*self);
        }
        if let Phase::Flushing = self.phase {
            let phase = if ok {
                Phase::Exchanging(0)
            } else {
                Phase::Finished(Err(Error::WriteFailure))
            };
            *self = Procedure { routine: self.routine, mode: self.mode, phase, sample: self.sample };
        }
    }

    /// Takes the outcome of the exchange of the pending request.
    pub fn on_response(&mut self, r: Result<Response, Error>)
        ensures
            final(self)@ == after_response(old(self)@, r),
    {
        proof {
            use_type_invariant(&*self);
        }
        if let Phase::Exchanging(k) = self.phase {
            let routine = self.routine;
            let mode = self.mode;
            match r {
                Err(e) => {
                    *self = Procedure {
                        routine,
                        mode,
                        phase: Phase::Finished(Err(e)),
                        sample: self.sample,
                    };
                },
                Ok(resp) => {
                    let req = plan_step(routine, mode, k);
                    let is_query = match req {
                        Request::QueryData => true,
                        _ => false,
                    };
                    let sample = match resp {
                        Response::Sample(x) => Some(x),
                        _ => None,
                    };
                    if is_query && sample.is_none() {
                        *self = Procedure {
                            routine,
                            mode,
                            phase: Phase::Finished(Err(Error::InvalidFrame)),
                            sample: self.sample,
                        };
                    } else {
                        let kept = if is_query {
                            sample
                        } else {
                            self.sample
                        };
                        let len = plan_len(routine, mode);
                        let phase = if k + 1 == len {
                            let output = match routine {
                                Routine::Init => None,
                                Routine::ReadSample => kept,
                            };
                            Phase::Finished(Ok(output))
                        } else {
                            Phase::Exchanging(k + 1)
                        };
                        *self = Procedure { routine, mode, phase, sample: kept };
                    }
                },
            }
        }
    }
}

} // verus!
