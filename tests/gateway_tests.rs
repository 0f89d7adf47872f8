use icmt::coordinator::{Action, Coordinator, Phase};
use icmt::error::IcmtError;
use icmt::event::{event_user, make_event_info, Event};
use icmt::gateway::{
    after_attempt, check_frame, finish_call, plan_call, single_outcome, truncate_log, Attempt, CallMode,
    CallPlan, ServiceCall, REQUEST_TIMEOUT_MS, RETRY_PAUSE_MS,
};
use icmt::graphics::{Color, Dim, Elm, Fill, Out, Pos, Rect, RenderOutcome, Request};
use icmt::worker::{update_worker_done, WorkerState};

fn outcome() -> RenderOutcome {
    RenderOutcome::Success(Out::Draw(Elm::Rect(
        Rect { pos: Pos { x: 0, y: 0 }, dim: Dim { width: 1, height: 1 } },
        Fill::Blank,
    )))
}

#[test]
fn calls_are_planned_by_kind() {
    assert_eq!(plan_call(&ServiceCall::FlushQuit), CallPlan::Resolved);
    assert_eq!(plan_call(&ServiceCall::View(Dim { width: 1, height: 1 }, vec![])), CallPlan::Remote(CallMode::Query, "view"));
    assert_eq!(plan_call(&ServiceCall::Update(vec![], Request::Nothing)), CallPlan::Remote(CallMode::Update, "update"));
}

#[test]
fn continuous_update_failure_times_out_and_forces_quit() {
    let mut elapsed: u64 = 0;
    let mut attempts = 0;
    let err = loop {
        attempts += 1;
        match after_attempt(CallMode::Update, elapsed, Err("connection refused".to_string())) {
            Attempt::RetryAfter(ms) => {
                assert_eq!(ms, RETRY_PAUSE_MS);
                elapsed += ms;
            }
            Attempt::Failed(e) => break e,
            Attempt::Received(_) => panic!("no bytes were received"),
        }
    };
    assert_eq!(err, IcmtError::Timeout);
    assert_eq!(elapsed, REQUEST_TIMEOUT_MS);
    assert_eq!(attempts, 601);
    // the worker ends with the failure, and the coordinator shuts down
    let mut state = WorkerState::Running;
    assert_eq!(update_worker_done(&mut state, Err(err)), Err(IcmtError::Timeout));
    assert_eq!(state, WorkerState::Stopped);
    let user = event_user(&"u".to_string(), &Color { r: 0, g: 0, b: 0 });
    let (mut c, _) = Coordinator::new(Dim { width: 2, height: 2 }, make_event_info(&user, Event::Skip, String::new(), String::new()));
    let actions = c.on_update_failed();
    assert!(matches!(actions.last(), Some(Action::Exit)));
    assert_eq!(c.phase, Phase::Stopped);
}

#[test]
fn success_ends_the_attempts() {
    assert_eq!(after_attempt(CallMode::Update, 59_999, Ok(vec![1, 2])), Attempt::Received(vec![1, 2]));
    assert_eq!(after_attempt(CallMode::Update, 59_999, Err("e".to_string())), Attempt::RetryAfter(100));
    assert_eq!(after_attempt(CallMode::Update, 60_000, Err("e".to_string())), Attempt::Failed(IcmtError::Timeout));
}

#[test]
fn queries_are_not_retried() {
    assert_eq!(
        after_attempt(CallMode::Query, 0, Err("down".to_string())),
        Attempt::Failed(IcmtError::Transport("down".to_string()))
    );
}

#[test]
fn decoding_failure_fails_the_call() {
    assert_eq!(finish_call(Err("bad".to_string())), Err(IcmtError::Decoding("bad".to_string())));
    assert_eq!(finish_call(Ok(vec![outcome()])), Ok(vec![outcome()]));
    assert!(check_frame(&vec![0x44, 0x49, 0x44, 0x4C, 0]).is_ok());
    assert!(matches!(check_frame(&vec![0x44, 0x49, 0x44]), Err(IcmtError::Decoding(_))));
    assert!(matches!(check_frame(&vec![0x44, 0x49, 0x44, 0x4D]), Err(IcmtError::Decoding(_))));
}

#[test]
fn view_response_must_hold_one_outcome() {
    assert_eq!(single_outcome(vec![outcome()]), Ok(outcome()));
    assert_eq!(single_outcome(vec![]), Err(IcmtError::ProtocolViolation(0)));
    assert_eq!(single_outcome(vec![outcome(), outcome()]), Err(IcmtError::ProtocolViolation(2)));
}

#[test]
fn long_dumps_are_truncated() {
    let short = "x".repeat(1000);
    assert_eq!(truncate_log(&short), short);
    let long = "é".repeat(1001);
    let cut = truncate_log(&long);
    assert_eq!(cut, format!("{}...(truncated)", "é".repeat(1000)));
}
