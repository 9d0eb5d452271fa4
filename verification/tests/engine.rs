use mac_disk_monitor::engine::{read_line, BANNER, POLL_BOUND, READ_BOUND};
use mac_disk_monitor::{Action, Command, Engine, Error, Event, Reading, Response, Timestamp};

const APPEARED: &str = "***DiskAppeared ('disk4', DAVolumePath = 'file:///Volumes/my%20backups/', DAVolumeKind = 'hfs', DAVolumeName = 'Time Machine Backups') Time=20220108-20:22:05.000001438";
const PEEK: &str = "***DiskPeek ('disk3s1') Time=20220108-20:22:35.000008607";
const IDLE: &str = "***DAIdle (no DADiskRef) Time=20220108-20:22:29.000006774";

fn chunk(text: &str) -> Response {
    Response::Bytes(text.as_bytes().to_vec())
}

fn sent_event(command: Command) -> Event {
    match command {
        Command::Send(Some(event)) => event,
        other => panic!("an event should be sent, not {:?}", other),
    }
}

/// Answers as a worker does whose command stays alive and whose channels
/// work, until the engine wants to read again; gives the events on the way.
fn until_next_read(engine: &mut Engine, first: Command) -> Vec<Event> {
    let mut events = Vec::new();
    let mut command = first;
    loop {
        command = match command {
            Command::Read => return events,
            Command::Send(Some(event)) => {
                events.push(event);
                engine.step(Response::Sent)
            }
            Command::CheckExit => engine.step(Response::Alive),
            Command::PollAction => engine.step(Response::NoAction),
            other => panic!("the worker should be running, not {:?}", other),
        };
    }
}

#[test]
fn only_reads_and_polls_wait() {
    assert_eq!(READ_BOUND, 314);
    assert_eq!(POLL_BOUND, 100);
    assert_eq!(Command::Read.wait_bound(), 314);
    assert_eq!(Command::PollAction.wait_bound(), 100);
    assert_eq!(Command::CheckExit.wait_bound(), 0);
    assert_eq!(Command::Kill.wait_bound(), 0);
    assert_eq!(Command::Send(None).wait_bound(), 0);
    assert_eq!(Command::Finish(Ok(())).wait_bound(), 0);
    assert!(Command::Read.wait_bound() + Command::PollAction.wait_bound() < 500);
}

#[test]
fn banner_is_the_opening_line() {
    assert_eq!(BANNER, "***Begin monitoring");
}

#[test]
fn read_line_tells_banner_event_and_failure_apart() {
    assert_eq!(read_line(b"***Begin monitoring".to_vec()), Reading::Banner);
    assert_eq!(read_line(b"***Begin monitoring disk arbitration".to_vec()), Reading::Banner);

    match read_line(PEEK.as_bytes().to_vec()) {
        Reading::Report(event) => {
            assert_eq!(event.name(), "DiskPeek");
            assert_eq!(event.bsd_name(), Some(String::from("disk3s1")));
            assert_eq!(event.time_string(), "20220108-20:22:35.000008607");
        }
        other => panic!("an event should be reported, not {:?}", other),
    }

    match read_line(Vec::new()) {
        Reading::Report(event) => assert_eq!(event.name(), ""),
        other => panic!("an event should be reported, not {:?}", other),
    }

    assert_eq!(
        read_line(vec![b'*', 0xff, b'*']),
        Reading::Failure(Error::Utf8(vec![b'*', 0xff, b'*']))
    );
    assert_eq!(
        read_line(b"***DiskPeek ('disk3s1') Time=soon".to_vec()),
        Reading::Failure(Error::Time(String::from("soon")))
    );
}

#[test]
fn engine_starts_by_reading() {
    let engine = Engine::new();
    assert_eq!(engine.command(), Command::Read);
}

#[test]
fn running_worker_reads_checks_and_polls_in_turn() {
    let mut engine = Engine::new();
    assert_eq!(engine.step(Response::NoOutput), Command::CheckExit);
    assert_eq!(engine.step(Response::Alive), Command::PollAction);
    assert_eq!(engine.step(Response::NoAction), Command::Read);
    assert_eq!(engine.step(Response::NoOutput), Command::CheckExit);
    assert_eq!(engine.step(Response::Alive), Command::PollAction);
    assert_eq!(engine.step(Response::Action(Action::Noop)), Command::Read);
    assert_eq!(engine.command(), Command::Read);
}

#[test]
fn line_is_reported_once_it_is_whole() {
    let mut engine = Engine::new();
    let (head, tail) = APPEARED.split_at(40);
    assert_eq!(engine.step(chunk(head)), Command::CheckExit);
    assert_eq!(engine.step(Response::Alive), Command::PollAction);
    assert_eq!(engine.step(Response::NoAction), Command::Read);
    assert_eq!(engine.step(chunk(tail)), Command::CheckExit);
    assert_eq!(engine.step(Response::Alive), Command::PollAction);
    assert_eq!(engine.step(Response::NoAction), Command::Read);
    let event = sent_event(engine.step(chunk("\n")));
    assert_eq!(event.name(), "DiskAppeared");
    assert_eq!(event.bsd_name(), Some(String::from("disk4")));
    assert_eq!(event.path(), Some(String::from("file:///Volumes/my%20backups/")));
    assert_eq!(event.kind(), Some(String::from("hfs")));
    assert_eq!(event.volume_name(), Some(String::from("Time Machine Backups")));
    assert_eq!(event.time_string(), "20220108-20:22:05.000001438");
    assert_eq!(engine.step(Response::Sent), Command::CheckExit);
}

#[test]
fn events_come_in_the_order_of_their_lines() {
    let mut engine = Engine::new();
    let output = format!("{}\n{}\n{}\n{}\n", BANNER, APPEARED, PEEK, IDLE);
    let first = engine.step(chunk(output.as_str()));
    let events = until_next_read(&mut engine, first);
    let names: Vec<String> = events.iter().map(|event| event.name()).collect();
    assert_eq!(names, vec!["DiskAppeared", "DiskPeek", "DAIdle"]);
    assert_eq!(
        events[2].time(),
        Timestamp { year: 2022, month: 1, day: 8, hour: 20, minute: 22, second: 29, nanosecond: 6774 }
    );

    assert_eq!(engine.step(Response::NoOutput), Command::CheckExit);
    assert_eq!(engine.step(Response::Exited), Command::Send(None));
    assert_eq!(engine.step(Response::Sent), Command::Finish(Ok(())));
}

#[test]
fn banner_reports_nothing() {
    let mut engine = Engine::new();
    assert_eq!(engine.step(chunk("***Begin monitoring\n")), Command::CheckExit);
    assert_eq!(engine.step(Response::Alive), Command::PollAction);
    assert_eq!(engine.step(Response::NoAction), Command::Read);
}

#[test]
fn stop_is_honoured_while_idle() {
    let mut engine = Engine::new();
    assert_eq!(engine.step(Response::NoOutput), Command::CheckExit);
    assert_eq!(engine.step(Response::Alive), Command::PollAction);
    assert_eq!(engine.step(Response::Action(Action::Stop)), Command::Kill);
    assert_eq!(engine.step(Response::Killed), Command::Send(None));
    assert_eq!(engine.step(Response::Sent), Command::Finish(Ok(())));
    assert_eq!(engine.step(Response::NoOutput), Command::Finish(Ok(())));
    assert_eq!(engine.command(), Command::Finish(Ok(())));
}

#[test]
fn stop_leaves_pending_lines_unread() {
    let mut engine = Engine::new();
    let output = format!("{}\n{}\n", PEEK, IDLE);
    let event = sent_event(engine.step(chunk(output.as_str())));
    assert_eq!(event.name(), "DiskPeek");
    assert_eq!(engine.step(Response::Sent), Command::CheckExit);
    assert_eq!(engine.step(Response::Alive), Command::PollAction);
    assert_eq!(engine.step(Response::Action(Action::Stop)), Command::Kill);
    assert_eq!(engine.step(Response::Killed), Command::Send(None));
    assert_eq!(engine.step(Response::Sent), Command::Finish(Ok(())));
}

#[test]
fn exit_closes_the_stream() {
    let mut engine = Engine::new();
    assert_eq!(engine.step(Response::NoOutput), Command::CheckExit);
    assert_eq!(engine.step(Response::Exited), Command::Send(None));
    assert_eq!(engine.step(Response::Sent), Command::Finish(Ok(())));
}

#[test]
fn read_failure_is_an_io_error_after_cleanup() {
    let mut engine = Engine::new();
    assert_eq!(engine.step(Response::ReadFailed(String::from("broken pipe"))), Command::Kill);
    assert_eq!(engine.step(Response::Killed), Command::Send(None));
    assert_eq!(
        engine.step(Response::Sent),
        Command::Finish(Err(Error::Io(String::from("broken pipe"))))
    );
}

#[test]
fn failed_exit_check_is_an_io_error_after_cleanup() {
    let mut engine = Engine::new();
    assert_eq!(engine.step(Response::NoOutput), Command::CheckExit);
    assert_eq!(engine.step(Response::CheckFailed(String::from("no child"))), Command::Kill);
    assert_eq!(engine.step(Response::Killed), Command::Send(None));
    assert_eq!(
        engine.step(Response::Sent),
        Command::Finish(Err(Error::Io(String::from("no child"))))
    );
}

#[test]
fn undecodable_line_ends_the_run() {
    let mut engine = Engine::new();
    let mut output = PEEK.as_bytes().to_vec();
    output.push(b'\n');
    output.extend_from_slice(&[0xc3, 0x28, b'\n']);
    output.extend_from_slice(IDLE.as_bytes());
    output.push(b'\n');
    let event = sent_event(engine.step(Response::Bytes(output)));
    assert_eq!(event.name(), "DiskPeek");
    assert_eq!(engine.step(Response::Sent), Command::CheckExit);
    assert_eq!(engine.step(Response::Alive), Command::PollAction);
    assert_eq!(engine.step(Response::NoAction), Command::Kill);
    assert_eq!(engine.step(Response::Killed), Command::Send(None));
    assert_eq!(
        engine.step(Response::Sent),
        Command::Finish(Err(Error::Utf8(vec![0xc3, 0x28])))
    );
}

#[test]
fn malformed_time_ends_the_run() {
    let mut engine = Engine::new();
    assert_eq!(
        engine.step(chunk("***DiskPeek ('disk3s1') Time=20220108-20:22\n")),
        Command::Kill
    );
    assert_eq!(engine.step(Response::Killed), Command::Send(None));
    assert_eq!(
        engine.step(Response::Sent),
        Command::Finish(Err(Error::Time(String::from("20220108-20:22"))))
    );
}

#[test]
fn lost_receiver_ends_the_run() {
    let mut engine = Engine::new();
    let line = format!("{}\n", PEEK);
    sent_event(engine.step(chunk(line.as_str())));
    assert_eq!(engine.step(Response::SendFailed), Command::Kill);
    assert_eq!(engine.step(Response::Killed), Command::Send(None));
    assert_eq!(engine.step(Response::SendFailed), Command::Finish(Err(Error::SendError)));
}

#[test]
fn lost_receiver_at_the_end_is_a_send_error() {
    let mut engine = Engine::new();
    assert_eq!(engine.step(Response::NoOutput), Command::CheckExit);
    assert_eq!(engine.step(Response::Exited), Command::Send(None));
    assert_eq!(engine.step(Response::SendFailed), Command::Finish(Err(Error::SendError)));
}

#[test]
fn failed_kill_is_reported() {
    let mut engine = Engine::new();
    assert_eq!(engine.step(Response::NoOutput), Command::CheckExit);
    assert_eq!(engine.step(Response::Alive), Command::PollAction);
    assert_eq!(engine.step(Response::Action(Action::Stop)), Command::Kill);
    assert_eq!(
        engine.step(Response::KillFailed(String::from("not permitted"))),
        Command::Send(None)
    );
    assert_eq!(
        engine.step(Response::Sent),
        Command::Finish(Err(Error::Kill(String::from("not permitted"))))
    );
}

#[test]
fn first_failure_is_the_result() {
    let mut engine = Engine::new();
    assert_eq!(engine.step(Response::ReadFailed(String::from("first"))), Command::Kill);
    assert_eq!(engine.step(Response::KillFailed(String::from("second"))), Command::Send(None));
    assert_eq!(
        engine.step(Response::SendFailed),
        Command::Finish(Err(Error::Io(String::from("first"))))
    );
}

#[test]
fn answer_to_another_command_changes_nothing() {
    let mut engine = Engine::new();
    assert_eq!(engine.step(Response::Sent), Command::Read);
    assert_eq!(engine.step(Response::Exited), Command::Read);
    assert_eq!(engine.step(Response::Action(Action::Stop)), Command::Read);
    assert_eq!(engine.step(Response::Killed), Command::Read);
    assert_eq!(engine.step(Response::NoOutput), Command::CheckExit);
    assert_eq!(engine.step(chunk("***DiskPeek ('disk3s1') Time=x\n")), Command::CheckExit);
    assert_eq!(engine.step(Response::Alive), Command::PollAction);
    assert_eq!(engine.step(Response::Sent), Command::PollAction);
    assert_eq!(engine.step(Response::NoAction), Command::Read);
}

#[test]
fn line_without_end_is_never_reported() {
    let mut engine = Engine::new();
    assert_eq!(engine.step(chunk(PEEK)), Command::CheckExit);
    assert_eq!(engine.step(Response::Exited), Command::Send(None));
    assert_eq!(engine.step(Response::Sent), Command::Finish(Ok(())));
}

#[test]
fn commands_can_be_copied() {
    let mut engine = Engine::new();
    let line = format!("{}\n", APPEARED);
    let command = engine.step(chunk(line.as_str()));
    assert_eq!(command.clone(), command);
    assert_eq!(engine.command(), command);
    let failed = Command::Finish(Err(Error::Utf8(vec![1, 2, 3])));
    assert_eq!(failed.clone(), failed);
    assert_eq!(Error::Kill(String::from("k")).clone(), Error::Kill(String::from("k")));
    assert_eq!(Error::Time(String::from("t")).clone(), Error::Time(String::from("t")));
    assert_eq!(Error::SendError.clone(), Error::SendError);
    assert_eq!(Action::Stop.clone(), Action::Stop);
    assert_ne!(Action::Stop, Action::Noop);
}
