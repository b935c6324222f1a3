use agent::codec::{decode, DecodeError};
use agent::commands::{IncomingMessage, MonitorMessage, OutgoingMessage, UploadMessage};
use agent::id::Uuid;
use agent::session::{Reaction, Session, StartPlan, StartStep, State, Supervisor, Tick};

const FIRST: &str = "{\"MonitorMessage\":{\"experiment\":\"14bc4472-21f5-11ec-a6ef-13ef7ae4bd77\"}}";
const SECOND: &str = "{\"MonitorMessage\":{\"experiment\":\"a1a2a3a4-b1b2-c1c2-d1d2-d3d4d5d6d7d8\"}}";
const UPLOAD: &str = "{\"UploadMessage\":{\"binary\":\"a1a2a3a4-b1b2-c1c2-d1d2-d3d4d5d6d7d8\"}}";

fn first_id() -> Uuid {
    Uuid::from_u128(0x14bc4472_21f5_11ec_a6ef_13ef7ae4bd77)
}

fn second_id() -> Uuid {
    Uuid::from_u128(0xa1a2a3a4_b1b2_c1c2_d1d2_d3d4d5d6d7d8)
}

fn active(experiment: Uuid, cancelled: bool) -> State {
    State::Monitoring(Session { experiment, cancelled })
}

fn run_start(supervisor: &mut Supervisor, experiment: Uuid) -> Option<OutgoingMessage> {
    let mut step = StartStep::first();
    loop {
        match step.after(Ok(())) {
            StartPlan::Perform(next) => step = next,
            StartPlan::Abandon { report, .. } => return Some(report),
            StartPlan::Commit => return supervisor.commit(experiment).err(),
        }
    }
}

#[test]
fn a_supervisor_starts_idle() {
    let supervisor = Supervisor::new();
    assert_eq!(supervisor.state(), State::Idle);
    assert!(supervisor.is_idle());
    assert!(!supervisor.is_monitoring());
    assert_eq!(supervisor.experiment(), None);
}

#[test]
fn a_monitor_request_starts_a_session_and_a_second_is_turned_down() {
    let mut supervisor = Supervisor::new();
    let reaction = supervisor.receive(FIRST.as_bytes());
    assert_eq!(reaction, Reaction::StartMonitor(first_id()));
    assert!(supervisor.is_idle());
    assert_eq!(run_start(&mut supervisor, first_id()), None);
    assert_eq!(supervisor.state(), active(first_id(), false));
    assert!(supervisor.is_monitoring());

    match supervisor.receive(FIRST.as_bytes()) {
        Reaction::Report(report) => {
            assert_eq!(report.encode(), "{\"MonitorErrorMessage\":{\"AlreadyMonitoring\":{}}}");
        }
        other => panic!("unexpected: {:?}", other),
    }
    assert_eq!(supervisor.state(), active(first_id(), false));
}

#[test]
fn of_many_monitor_requests_one_starts_a_session() {
    let mut supervisor = Supervisor::new();
    let mut started = 0;
    let mut turned_down = 0;
    for frame in [FIRST, SECOND, FIRST, SECOND, SECOND] {
        match supervisor.receive(frame.as_bytes()) {
            Reaction::StartMonitor(experiment) => {
                assert_eq!(run_start(&mut supervisor, experiment), None);
                started += 1;
            }
            Reaction::Report(report) => {
                assert_eq!(report, OutgoingMessage::already_monitoring());
                turned_down += 1;
            }
            other => panic!("unexpected: {:?}", other),
        }
    }
    assert_eq!(started, 1);
    assert_eq!(turned_down, 4);
    assert_eq!(supervisor.experiment(), Some(first_id()));
}

#[test]
fn bytes_that_are_no_text_are_reported_and_change_nothing() {
    let mut supervisor = Supervisor::new();
    for round in 0..2 {
        let before = supervisor.state();
        match supervisor.receive(&[0x80, 0x81]) {
            Reaction::Report(OutgoingMessage::ParseMessage(report)) => {
                assert!(!report.info.is_empty());
                assert!(report.info.starts_with("Invalid UTF-8 sequence: "));
            }
            other => panic!("unexpected: {:?}", other),
        }
        assert_eq!(supervisor.state(), before);
        if round == 0 {
            assert_eq!(run_start(&mut supervisor, first_id()), None);
        }
    }
    assert_eq!(supervisor.state(), active(first_id(), false));
}

#[test]
fn an_unknown_frame_is_reported_with_its_diagnostic() {
    let supervisor = Supervisor::new();
    assert_eq!(
        supervisor.receive(b"{\"StopMessage\":{}}"),
        Reaction::Report(OutgoingMessage::parse_error(
            "Request contains unknown message: unknown message kind, expected `UploadMessage` or `MonitorMessage`"
                .to_string()
        ))
    );
    assert!(supervisor.is_idle());
}

#[test]
fn an_upload_request_is_taken_in_any_state() {
    let mut supervisor = Supervisor::new();
    assert_eq!(supervisor.receive(UPLOAD.as_bytes()), Reaction::Upload(second_id()));
    assert!(supervisor.is_idle());
    assert_eq!(run_start(&mut supervisor, first_id()), None);
    assert_eq!(supervisor.receive(UPLOAD.as_bytes()), Reaction::Upload(second_id()));
    assert_eq!(supervisor.state(), active(first_id(), false));
}

#[test]
fn react_follows_what_was_decoded() {
    let mut supervisor = Supervisor::new();
    let monitor = IncomingMessage::MonitorMessage(MonitorMessage { experiment: second_id() });
    let upload = IncomingMessage::UploadMessage(UploadMessage { binary: first_id() });
    assert_eq!(supervisor.react(Ok(monitor)), Reaction::StartMonitor(second_id()));
    assert_eq!(supervisor.react(Ok(upload)), Reaction::Upload(first_id()));
    assert_eq!(
        supervisor.react(Err(DecodeError::UnknownShape("why".to_string()))),
        Reaction::Report(OutgoingMessage::parse_error("why".to_string()))
    );
    assert_eq!(
        supervisor.react(Err(DecodeError::NotUtf8("bytes".to_string()))),
        Reaction::Report(OutgoingMessage::parse_error("bytes".to_string()))
    );
    assert_eq!(supervisor.commit(first_id()), Ok(()));
    assert_eq!(
        supervisor.react(Ok(monitor)),
        Reaction::Report(OutgoingMessage::already_monitoring())
    );
    assert_eq!(supervisor.react(decode(UPLOAD.as_bytes())), Reaction::Upload(second_id()));
}

#[test]
fn the_steps_of_a_start_come_in_order() {
    assert_eq!(StartStep::first(), StartStep::BuildCommand);
    assert_eq!(StartStep::BuildCommand.after(Ok(())), StartPlan::Perform(StartStep::Spawn));
    assert_eq!(StartStep::Spawn.after(Ok(())), StartPlan::Perform(StartStep::ConnectRelay));
    assert_eq!(StartStep::ConnectRelay.after(Ok(())), StartPlan::Commit);
}

#[test]
fn a_failed_build_spawns_nothing_and_leaves_the_agent_idle() {
    let supervisor = Supervisor::new();
    assert_eq!(supervisor.receive(FIRST.as_bytes()), Reaction::StartMonitor(first_id()));
    assert_eq!(
        StartStep::first().after(Err("no temporary directory".to_string())),
        StartPlan::Abandon {
            report: OutgoingMessage::script_run_error(
                "Failed to construct nRF52 monitor command: no temporary directory".to_string()
            ),
            terminate: false,
        }
    );
    assert!(supervisor.is_idle());
}

#[test]
fn a_failed_spawn_is_reported_as_a_script_error() {
    assert_eq!(
        StartStep::Spawn.after(Err("bash not found".to_string())),
        StartPlan::Abandon {
            report: OutgoingMessage::script_run_error(
                "Failed to initialize nRF52 monitor command: bash not found".to_string()
            ),
            terminate: false,
        }
    );
}

#[test]
fn a_failed_relay_connection_terminates_the_subprocess() {
    let supervisor = Supervisor::new();
    let plan = StartStep::ConnectRelay.after(Err("connection refused".to_string()));
    assert_eq!(
        plan,
        StartPlan::Abandon {
            report: OutgoingMessage::connection_error(
                "Failed to connect to nRF52 monitor server: connection refused".to_string()
            ),
            terminate: true,
        }
    );
    match plan {
        StartPlan::Abandon { report, .. } => assert_eq!(
            report.encode(),
            "{\"MonitorErrorMessage\":{\"ConnectionError\":{\"info\":\"Failed to connect to nRF52 monitor server: connection refused\"}}}"
        ),
        other => panic!("unexpected: {:?}", other),
    }
    assert!(supervisor.is_idle());
}

#[test]
fn commit_takes_a_session_only_into_an_empty_slot() {
    let mut supervisor = Supervisor::new();
    assert_eq!(supervisor.commit(first_id()), Ok(()));
    assert_eq!(supervisor.commit(second_id()), Err(OutgoingMessage::already_monitoring()));
    assert_eq!(supervisor.experiment(), Some(first_id()));
}

#[test]
fn cancelling_ends_the_session_at_the_next_sample() {
    let mut supervisor = Supervisor::new();
    assert_eq!(supervisor.commit(first_id()), Ok(()));
    supervisor.cancel();
    assert_eq!(supervisor.state(), active(first_id(), true));
    assert_eq!(
        supervisor.sample(false, vec![1, 2, 3]),
        Tick { forward: vec![], terminate: true, close_relay: true, finished: true }
    );
    assert_eq!(supervisor.state(), State::Idle);
}

#[test]
fn cancelling_an_idle_agent_does_nothing() {
    let mut supervisor = Supervisor::new();
    supervisor.cancel();
    assert_eq!(supervisor.state(), State::Idle);
    supervisor.cancel();
    assert_eq!(supervisor.state(), State::Idle);
    assert_eq!(supervisor.commit(first_id()), Ok(()));
    supervisor.cancel();
    supervisor.cancel();
    assert_eq!(supervisor.state(), active(first_id(), true));
}

#[test]
fn a_cancelled_session_still_turns_requests_down() {
    let mut supervisor = Supervisor::new();
    assert_eq!(supervisor.commit(first_id()), Ok(()));
    supervisor.cancel();
    assert_eq!(
        supervisor.receive(SECOND.as_bytes()),
        Reaction::Report(OutgoingMessage::already_monitoring())
    );
    let _ = supervisor.sample(false, vec![]);
    assert_eq!(supervisor.receive(SECOND.as_bytes()), Reaction::StartMonitor(second_id()));
}

#[test]
fn a_sample_forwards_the_output_while_the_session_goes_on() {
    let mut supervisor = Supervisor::new();
    assert_eq!(supervisor.commit(first_id()), Ok(()));
    assert_eq!(
        supervisor.sample(false, vec![7, 8]),
        Tick { forward: vec![7, 8], terminate: false, close_relay: false, finished: false }
    );
    assert_eq!(
        supervisor.sample(false, vec![]),
        Tick { forward: vec![], terminate: false, close_relay: false, finished: false }
    );
    assert_eq!(supervisor.state(), active(first_id(), false));
}

#[test]
fn an_exit_of_the_subprocess_ends_the_session() {
    let mut supervisor = Supervisor::new();
    assert_eq!(supervisor.commit(first_id()), Ok(()));
    assert_eq!(
        supervisor.sample(true, vec![9]),
        Tick { forward: vec![9], terminate: false, close_relay: true, finished: true }
    );
    assert_eq!(supervisor.state(), State::Idle);
    assert_eq!(supervisor.receive(SECOND.as_bytes()), Reaction::StartMonitor(second_id()));
}

#[test]
fn a_sample_without_a_session_ends_the_task() {
    let mut supervisor = Supervisor::new();
    assert_eq!(
        supervisor.sample(false, vec![1]),
        Tick { forward: vec![], terminate: false, close_relay: false, finished: true }
    );
    assert_eq!(supervisor.state(), State::Idle);
}
