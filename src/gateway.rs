//! The remote call gateway's policy: which calls go out and how, when a
//! failed update is retried, and what a response must look like.
use vstd::prelude::*;
use crate::error::IcmtError;
use crate::event::EventInfo;
use crate::graphics::{Dim, RenderOutcome, Request};

verus! {

/// Pause between two attempts of an update call, in milliseconds.
pub const RETRY_PAUSE_MS: u64 = 100;

/// Time after which an update call gives up, in milliseconds.
pub const REQUEST_TIMEOUT_MS: u64 = 60_000;

/// Longest dump of a decoded result that is logged, in characters.
pub const LOG_DUMP_LIMIT: usize = 1000;

/// A call to the remote service.
#[derive(Debug, PartialEq, Eq)]
pub enum ServiceCall {
    /// Ends a pipeline; it never reaches the network.
    FlushQuit,
    /// Queries the scene for a window extent and a batch of events.
    View(Dim, Vec<EventInfo>),
    /// Pushes a batch of events, asking for a rendering in return.
    Update(Vec<EventInfo>, Request),
}

/// How a remote call is made.
#[derive(Clone, Copy, Debug, PartialEq, Eq, Structural)]
pub enum CallMode {
    /// A read-only call, made once.
    Query,
    /// A state-changing call, retried until it succeeds or times out.
    Update,
}

/// How the gateway handles a call.
#[derive(Debug, PartialEq, Eq)]
pub enum CallPlan {
    /// Answered on the spot with no outcomes.
    Resolved,
    /// Sent to the named method of the service.
    Remote(CallMode, &'static str),
}

/// What follows one attempt at a remote call.
#[derive(Debug, PartialEq, Eq)]
pub enum Attempt {
    /// The service answered with these bytes.
    Received(Vec<u8>),
    /// Try again after this many milliseconds.
    RetryAfter(u64),
    /// The call has failed.
    Failed(IcmtError),
}

pub open spec fn plan_spec(call: ServiceCall) -> CallPlan {
    match call {
        ServiceCall::FlushQuit => CallPlan::Resolved,
        ServiceCall::View(_, _) => CallPlan::Remote(CallMode::Query, "view"),
        ServiceCall::Update(_, _) => CallPlan::Remote(CallMode::Update, "update"),
    }
}

/// How `call` is handled: a quit resolves locally, a view is a query of
/// method `view`, an update a retried call of method `update`.
pub fn plan_call(call: &ServiceCall) -> (r: CallPlan)
    ensures
        r == plan_spec(*call),
{
    match call {
        ServiceCall::FlushQuit => CallPlan::Resolved,
        ServiceCall::View(_, _) => CallPlan::Remote(CallMode::Query, "view"),
        ServiceCall::Update(_, _) => CallPlan::Remote(CallMode::Update, "update"),
    }
}

pub open spec fn attempt_spec(mode: CallMode, elapsed_ms: u64, transport: Result<Vec<u8>, String>) -> Attempt {
    match transport {
        Ok(bytes) => Attempt::Received(bytes),
        Err(msg) => match mode {
            CallMode::Query => Attempt::Failed(IcmtError::Transport(msg)),
            CallMode::Update => if elapsed_ms < REQUEST_TIMEOUT_MS {
                Attempt::RetryAfter(RETRY_PAUSE_MS)
            } else {
                Attempt::Failed(IcmtError::Timeout)
            },
        },
    }
}

/// Decides what follows an attempt that ended `elapsed_ms` after the call
/// began, with `transport` as its result. A query is never retried; a failed
/// update is tried again after the fixed pause until the timeout has passed,
/// and then fails with a timeout.
pub fn after_attempt(mode: CallMode, elapsed_ms: u64, transport: Result<Vec<u8>, String>) -> (r: Attempt)
    ensures
        r == attempt_spec(mode, elapsed_ms, transport),
{
    match transport {
        Ok(bytes) => Attempt::Received(bytes),
        Err(msg) => match mode {
            CallMode::Query => Attempt::Failed(IcmtError::Transport(msg)),
            CallMode::Update => {
                if elapsed_ms < REQUEST_TIMEOUT_MS {
                    Attempt::RetryAfter(RETRY_PAUSE_MS)
                } else {
                    Attempt::Failed(IcmtError::Timeout)
                }
            },
        },
    }
}

/// The magic bytes that open every encoded message of the service's wire format.
pub open spec fn frame_magic() -> Seq<u8> {
    seq![0x44u8, 0x49u8, 0x44u8, 0x4Cu8]
}

pub open spec fn is_framed(bytes: Seq<u8>) -> bool {
    bytes.len() >= 4 && bytes.subrange(0, 4) == frame_magic()
}

/// Whether `bytes` opens as an encoded message does; a payload that does not
/// is rejected before it is decoded.
pub fn check_frame(bytes: &Vec<u8>) -> (r: Result<(), IcmtError>)
    ensures
        r is Ok <==> is_framed(bytes@),
        r is Err ==> r->Err_0 is Decoding,
{
    if bytes.len() >= 4 && bytes[0] == 0x44u8 && bytes[1] == 0x49u8 && bytes[2] == 0x44u8
        && bytes[3] == 0x4Cu8 {
        assert(bytes@.subrange(0, 4) =~= frame_magic());
        Ok(())
    } else {
        proof {
            if bytes@.len() >= 4 {
                assert(bytes@.subrange(0, 4)[0] == bytes@[0]);
                assert(bytes@.subrange(0, 4)[1] == bytes@[1]);
                assert(bytes@.subrange(0, 4)[2] == bytes@[2]);
                assert(bytes@.subrange(0, 4)[3] == bytes@[3]);
            }
        }
        Err(IcmtError::Decoding(String::from_str("not an encoded message")))
    }
}

/// The outcomes of a call, from what decoding its payload gave; a decoding
/// failure fails the call.
pub fn finish_call(decoded: Result<Vec<RenderOutcome>, String>) -> (r: Result<Vec<RenderOutcome>, IcmtError>)
    ensures
        match decoded {
            Ok(v) => r == Ok::<Vec<RenderOutcome>, IcmtError>(v),
            Err(msg) => r == Err::<Vec<RenderOutcome>, IcmtError>(IcmtError::Decoding(msg)),
        },
{
    match decoded {
        Ok(v) => Ok(v),
        Err(msg) => Err(IcmtError::Decoding(msg)),
    }
}

/// The single outcome of a view response; any other count is a protocol
/// violation.
pub fn single_outcome(outcomes: Vec<RenderOutcome>) -> (r: Result<RenderOutcome, IcmtError>)
    ensures
        outcomes@.len() == 1 ==> r == Ok::<RenderOutcome, IcmtError>(outcomes@[0]),
        outcomes@.len() != 1 ==> r == Err::<RenderOutcome, IcmtError>(
            IcmtError::ProtocolViolation(outcomes@.len() as usize),
        ),
{
    let mut outcomes = outcomes;
    if outcomes.len() == 1 {
        Ok(outcomes.remove(0))
    } else {
        Err(IcmtError::ProtocolViolation(outcomes.len()))
    }
}

pub open spec fn truncated(s: Seq<char>) -> Seq<char> {
    if s.len() > LOG_DUMP_LIMIT {
        s.subrange(0, LOG_DUMP_LIMIT as int) + "...(truncated)"@
    } else {
        s
    }
}

/// A dump of a decoded result as it is logged: at most the limit's number of
/// characters, marked when it was cut.
pub fn truncate_log(s: &str) -> (r: String)
    ensures
        r@ == truncated(s@),
{
    if s.unicode_len() > LOG_DUMP_LIMIT {
        let mut r = String::from_str(s.substring_char(0, LOG_DUMP_LIMIT));
        r.append("...(truncated)");
        r
    } else {
        String::from_str(s)
    }
}

} // verus!
