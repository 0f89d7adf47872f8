//! The decisions of the two pipeline workers. Each takes requests from its
//! own channel, one at a time, and has the gateway make the remote call.
use vstd::prelude::*;
use crate::error::IcmtError;
use crate::event::EventInfo;
use crate::gateway::{single_outcome, ServiceCall};
use crate::graphics::{Dim, RenderOutcome};

verus! {

/// Whether a worker still takes requests.
#[derive(Clone, Copy, Debug, PartialEq, Eq, Structural)]
pub enum WorkerState {
    Running,
    Stopped,
}

/// What a worker does with a request it received.
#[derive(Debug)]
pub enum WorkerStep {
    /// Have the gateway make this call.
    Call(ServiceCall),
    /// Stop; no call follows.
    Exit,
    /// Nothing.
    Ignore,
}

/// The update worker's next state and step on receiving `call`.
pub open spec fn update_receive_spec(state: WorkerState, call: ServiceCall) -> (WorkerState, WorkerStep) {
    match state {
        WorkerState::Stopped => (WorkerState::Stopped, WorkerStep::Ignore),
        WorkerState::Running => match call {
            ServiceCall::FlushQuit => (WorkerState::Stopped, WorkerStep::Exit),
            other => (WorkerState::Running, WorkerStep::Call(other)),
        },
    }
}

/// The update worker received `call`. A quit call stops it without reaching
/// the gateway; any other call goes to the gateway. A stopped worker does
/// nothing with what it receives, and stays stopped.
pub fn update_worker_receive(state: &mut WorkerState, call: ServiceCall) -> (r: WorkerStep)
    ensures
        (*final(state), r) == update_receive_spec(*old(state), call),
{
    match state {
        WorkerState::Stopped => WorkerStep::Ignore,
        WorkerState::Running => {
            match call {
                ServiceCall::FlushQuit => {
                    *state = WorkerState::Stopped;
                    WorkerStep::Exit
                },
                other => WorkerStep::Call(other),
            }
        },
    }
}

/// The update worker's call ended with `result`: a success is acknowledged
/// (`Ok`); a failure ends the worker with that failure.
pub fn update_worker_done(state: &mut WorkerState, result: Result<Vec<RenderOutcome>, IcmtError>) -> (r: Result<(), IcmtError>)
    ensures
        result is Ok ==> r is Ok && *final(state) == *old(state),
        result is Err ==> r == Err::<(), IcmtError>(result->Err_0) && *final(state) is Stopped,
{
    match result {
        Ok(_) => Ok(()),
        Err(e) => {
            *state = WorkerState::Stopped;
            Err(e)
        },
    }
}

/// The view worker received `request`. An absent request stops it; a
/// present one becomes a view call. A stopped worker does nothing with what
/// it receives, and stays stopped.
pub fn view_worker_receive(state: &mut WorkerState, request: Option<(Dim, Vec<EventInfo>)>) -> (r: WorkerStep)
    ensures
        *old(state) is Stopped ==> *final(state) is Stopped && r is Ignore,
        *old(state) is Running && request is None ==> *final(state) is Stopped && r is Exit,
        *old(state) is Running && request is Some ==> *final(state) is Running && match r {
            WorkerStep::Call(ServiceCall::View(d, evs)) => d == request->Some_0.0 && evs
                == request->Some_0.1,
            _ => false,
        },
{
    match state {
        WorkerState::Stopped => WorkerStep::Ignore,
        WorkerState::Running => {
            match request {
                None => {
                    *state = WorkerState::Stopped;
                    WorkerStep::Exit
                },
                Some((d, evs)) => WorkerStep::Call(ServiceCall::View(d, evs)),
            }
        },
    }
}

/// The view worker's call ended with `result`: a response of exactly one
/// outcome gives that outcome to forward; a failure, or any other count,
/// ends the worker.
pub fn view_worker_done(state: &mut WorkerState, result: Result<Vec<RenderOutcome>, IcmtError>) -> (r: Result<RenderOutcome, IcmtError>)
    ensures
        match result {
            Ok(v) => if v@.len() == 1 {
                r == Ok::<RenderOutcome, IcmtError>(v@[0]) && *final(state) == *old(state)
            } else {
                r == Err::<RenderOutcome, IcmtError>(IcmtError::ProtocolViolation(v@.len() as usize))
                    && *final(state) is Stopped
            },
            Err(e) => r == Err::<RenderOutcome, IcmtError>(e) && *final(state) is Stopped,
        },
{
    match result {
        Ok(v) => {
            let r = single_outcome(v);
            if r.is_err() {
                *state = WorkerState::Stopped;
            }
            r
        },
        Err(e) => {
            *state = WorkerState::Stopped;
            Err(e)
        },
    }
}

/// A quit call sent to a stopped update worker asks for nothing, fails in
/// nothing and leaves it stopped; so sending it twice ends where sending it
/// once does.
pub proof fn lemma_flush_quit_idempotent(state: WorkerState)
    ensures
        update_receive_spec(WorkerState::Stopped, ServiceCall::FlushQuit) == (
            WorkerState::Stopped,
            WorkerStep::Ignore,
        ),
        update_receive_spec(update_receive_spec(state, ServiceCall::FlushQuit).0, ServiceCall::FlushQuit)
            == (WorkerState::Stopped, WorkerStep::Ignore),
        update_receive_spec(update_receive_spec(state, ServiceCall::FlushQuit).0, ServiceCall::FlushQuit).0
            == update_receive_spec(state, ServiceCall::FlushQuit).0,
{
}

} // verus!
