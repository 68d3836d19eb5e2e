use osm_microbenchmarks::process::{
    process_next_action, process_start, process_step, ProcessAction, ProcessEvent, ProcessPhase,
};
use osm_microbenchmarks::session::{cache_write_outcome, open_finish, CreateOutcome};
use osm_microbenchmarks::status::{BenchError, BoundaryStatus};
use osm_microbenchmarks::token::{LaunchToken, LAUNCH_TOKEN_LEN};

#[test]
fn open_returns_the_loader_session() {
    let token = LaunchToken::from_loader(vec![3u8; LAUNCH_TOKEN_LEN]);
    let (session, write_back) = open_finish(CreateOutcome::Created {
        eid: 7,
        token,
        token_updated: false,
    })
    .expect("a created environment opens");
    assert_eq!(session.eid(), 7);
    assert!(write_back.is_none());
}

#[test]
fn refreshed_token_is_written_back() {
    let token = LaunchToken::from_loader(vec![5u8; LAUNCH_TOKEN_LEN]);
    let (_, write_back) = open_finish(CreateOutcome::Created {
        eid: 1,
        token,
        token_updated: true,
    })
    .expect("a created environment opens");
    let back = write_back.expect("an updated token must be cached");
    assert_eq!(back.to_bytes(), vec![5u8; LAUNCH_TOKEN_LEN]);
}

#[test]
fn failed_instantiation_reports_the_status() {
    let r = open_finish(CreateOutcome::Failed {
        status: BoundaryStatus::InvalidSignature,
    });
    match r {
        Err(BenchError::EnclaveInit { status }) => {
            assert_eq!(status, BoundaryStatus::InvalidSignature)
        }
        _ => panic!("instantiation failure must surface as EnclaveInit"),
    }
}

#[test]
fn cache_write_failure_is_a_warning_not_an_error() {
    assert_eq!(cache_write_outcome(true, false), Some(BenchError::TokenCache));
    assert_eq!(cache_write_outcome(true, true), None);
    assert_eq!(cache_write_outcome(false, false), None);
    assert_eq!(cache_write_outcome(false, true), None);
}

#[test]
fn session_closed_once_on_the_success_path() {
    let mut run = process_start();
    assert_eq!(process_next_action(&run), ProcessAction::OpenSession);
    process_step(&mut run, ProcessEvent::OpenSucceeded);
    assert_eq!(process_next_action(&run), ProcessAction::RunScenario);
    process_step(&mut run, ProcessEvent::ScenarioFinished { ok: true, more: true });
    assert_eq!(process_next_action(&run), ProcessAction::RunScenario);
    process_step(&mut run, ProcessEvent::ScenarioFinished { ok: true, more: false });
    assert_eq!(process_next_action(&run), ProcessAction::CloseSession);
    process_step(&mut run, ProcessEvent::CloseFinished);
    assert_eq!(process_next_action(&run), ProcessAction::Exit);
    assert_eq!(run.phase, ProcessPhase::Finished);
    assert_eq!(run.opens, 1);
    assert_eq!(run.closes, 1);
}

#[test]
fn session_closed_once_when_a_scenario_fails() {
    let mut run = process_start();
    process_step(&mut run, ProcessEvent::OpenSucceeded);
    // process-fatal: a failed scenario skips the remaining ones but
    // still releases the session
    process_step(&mut run, ProcessEvent::ScenarioFinished { ok: false, more: true });
    assert_eq!(process_next_action(&run), ProcessAction::CloseSession);
    process_step(&mut run, ProcessEvent::CloseFinished);
    assert_eq!(run.phase, ProcessPhase::Finished);
    assert_eq!(run.opens, 1);
    assert_eq!(run.closes, 1);
}

#[test]
fn nothing_to_close_when_the_open_fails() {
    let mut run = process_start();
    process_step(&mut run, ProcessEvent::OpenFailed);
    assert_eq!(process_next_action(&run), ProcessAction::Exit);
    assert_eq!(run.phase, ProcessPhase::Finished);
    assert_eq!(run.opens, 0);
    assert_eq!(run.closes, 0);
    assert!(run.open_failed);
}

#[test]
fn closing_an_open_session_marks_it_closed() {
    let token = LaunchToken::empty();
    let (mut session, _) = open_finish(CreateOutcome::Created {
        eid: 11,
        token,
        token_updated: false,
    })
    .expect("a created environment opens");
    session.close();
    assert_eq!(session.eid(), 11);
}
