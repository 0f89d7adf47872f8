use icmt::config::{CliCommand, CliOpt, LogLevel};
use icmt::error::IcmtError;
use icmt::gateway::ServiceCall;
use icmt::graphics::{Dim, Elm, Fill, Out, Pos, Rect, RenderOutcome, Request};
use icmt::worker::{update_worker_done, update_worker_receive, view_worker_done, view_worker_receive, WorkerState, WorkerStep};

fn outcome() -> RenderOutcome {
    RenderOutcome::Failure(Out::Draw(Elm::Rect(
        Rect { pos: Pos { x: 0, y: 0 }, dim: Dim { width: 1, height: 1 } },
        Fill::Blank,
    )))
}

#[test]
fn flush_quit_to_stopped_worker_is_harmless() {
    let mut state = WorkerState::Running;
    assert!(matches!(update_worker_receive(&mut state, ServiceCall::FlushQuit), WorkerStep::Exit));
    assert_eq!(state, WorkerState::Stopped);
    assert!(matches!(update_worker_receive(&mut state, ServiceCall::FlushQuit), WorkerStep::Ignore));
    assert!(matches!(update_worker_receive(&mut state, ServiceCall::FlushQuit), WorkerStep::Ignore));
    assert_eq!(state, WorkerState::Stopped);
}

#[test]
fn update_worker_forwards_calls() {
    let mut state = WorkerState::Running;
    match update_worker_receive(&mut state, ServiceCall::Update(vec![], Request::Nothing)) {
        WorkerStep::Call(ServiceCall::Update(evs, Request::Nothing)) => assert!(evs.is_empty()),
        other => panic!("unexpected {:?}", other),
    }
    assert_eq!(state, WorkerState::Running);
    assert_eq!(update_worker_done(&mut state, Ok(vec![])), Ok(()));
    assert_eq!(state, WorkerState::Running);
}

#[test]
fn view_worker_stops_on_absent_request() {
    let mut state = WorkerState::Running;
    match view_worker_receive(&mut state, Some((Dim { width: 3, height: 4 }, vec![]))) {
        WorkerStep::Call(ServiceCall::View(d, evs)) => {
            assert_eq!(d, Dim { width: 3, height: 4 });
            assert!(evs.is_empty());
        }
        other => panic!("unexpected {:?}", other),
    }
    assert!(matches!(view_worker_receive(&mut state, None), WorkerStep::Exit));
    assert!(matches!(view_worker_receive(&mut state, None), WorkerStep::Ignore));
    assert_eq!(state, WorkerState::Stopped);
}

#[test]
fn view_worker_requires_exactly_one_outcome() {
    let mut state = WorkerState::Running;
    assert_eq!(view_worker_done(&mut state, Ok(vec![outcome()])), Ok(outcome()));
    assert_eq!(state, WorkerState::Running);
    assert_eq!(view_worker_done(&mut state, Ok(vec![outcome(), outcome()])), Err(IcmtError::ProtocolViolation(2)));
    assert_eq!(state, WorkerState::Stopped);
    let mut other = WorkerState::Running;
    assert_eq!(view_worker_done(&mut other, Err(IcmtError::Timeout)), Err(IcmtError::Timeout));
    assert_eq!(other, WorkerState::Stopped);
}

fn opts(trace: bool, debug: bool, info: bool) -> CliOpt {
    CliOpt {
        capture_output_path: "./out".to_string(),
        engiffen_frame_rate: 16,
        no_window: false,
        no_capture: false,
        log_trace: trace,
        log_debug: debug,
        log_info: info,
        command: CliCommand::Connect { replica_url: "r".to_string(), canister_id: "c".to_string(), user_info_text: "t".to_string() },
    }
}

#[test]
fn most_verbose_log_level_wins() {
    assert_eq!(opts(true, true, true).log_level(), LogLevel::Trace);
    assert_eq!(opts(false, true, true).log_level(), LogLevel::Debug);
    assert_eq!(opts(false, false, true).log_level(), LogLevel::Info);
    assert_eq!(opts(false, false, false).log_level(), LogLevel::Warn);
}
