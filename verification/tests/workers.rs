use program_tray::component::MenuAction;
use program_tray::component::Message;
use program_tray::component::TerminalAction;
use program_tray::config::Program;
use program_tray::launcher::Launcher;
use program_tray::launcher::StopPlan;
use program_tray::status::ExitStatus;
use program_tray::workers::DiscardOutput;
use program_tray::workers::DiscardStatus;
use program_tray::workers::OutputSink;
use program_tray::workers::PollStep;
use program_tray::workers::ReadEvent;
use program_tray::workers::ReadStep;
use program_tray::workers::StatusSink;
use program_tray::workers::WaitEvent;
use program_tray::workers::process_output;
use program_tray::workers::process_status;

#[derive(Default)]
struct CollectOutput {
    chunks: Vec<String>,
}

impl OutputSink for CollectOutput {
    fn on_output(&mut self, text: String) {
        self.chunks.push(text);
    }
}

#[derive(Default)]
struct CollectStatus {
    reports: Vec<ExitStatus>,
}

impl StatusSink for CollectStatus {
    fn on_status(&mut self, status: ExitStatus) {
        self.reports.push(status);
    }
}

/// Drives one reader step and hands the owed chunk to the sink, as the
/// runtime loop does.
fn reader_step<S: OutputSink>(event: ReadEvent, sink: &mut S) -> ReadStep {
    let (step, chunk) = process_output(event);
    if let Some(text) = chunk {
        sink.on_output(text);
    }
    step
}

/// Drives one poller step and hands the owed report to the sink, as the
/// runtime loop does.
fn poller_step<S: StatusSink>(event: WaitEvent, sink: &mut S) -> PollStep {
    let (step, report) = process_status(event);
    if let Some(status) = report {
        sink.on_status(status);
    }
    step
}

#[test]
fn data_is_decoded_and_forwarded() {
    let (step, chunk) = process_output(ReadEvent::Data(b"hello\n".to_vec()));
    assert_eq!(step, ReadStep::Proceed);
    assert_eq!(chunk, Some("hello\n".to_string()));

    let mut sink = CollectOutput::default();
    let step = reader_step(ReadEvent::Data(b"hello\n".to_vec()), &mut sink);
    assert_eq!(step, ReadStep::Proceed);
    assert_eq!(sink.chunks, vec!["hello\n".to_string()]);
    assert!(sink.chunks[0].contains("hello"));
}

#[test]
fn empty_data_is_not_forwarded() {
    let (step, chunk) = process_output(ReadEvent::Data(Vec::new()));
    assert_eq!(step, ReadStep::Proceed);
    assert_eq!(chunk, None);
}

#[test]
fn invalid_bytes_are_replaced_not_fatal() {
    let (step, chunk) = process_output(ReadEvent::Data(vec![0xff, b'h', b'i']));
    assert_eq!(step, ReadStep::Proceed);
    assert_eq!(chunk, Some("\u{FFFD}hi".to_string()));
}

#[test]
fn unready_stream_sleeps_and_retries() {
    let (step, chunk) = process_output(ReadEvent::WouldBlock);
    assert_eq!(step, ReadStep::SleepRetry);
    assert_eq!(chunk, None);
}

#[test]
fn eof_and_errors_fall_through_to_liveness() {
    let (step, chunk) = process_output(ReadEvent::Eof);
    assert_eq!(step, ReadStep::CheckLiveness);
    assert_eq!(chunk, None);
    let (step, chunk) = process_output(ReadEvent::Failed);
    assert_eq!(step, ReadStep::CheckLiveness);
    assert_eq!(chunk, None);
}

#[test]
fn exit_is_reported_once_and_verbatim() {
    let (step, report) = process_status(exited_event(7));
    assert_eq!(step, PollStep::Finished);
    assert_eq!(report, Some(ExitStatus::exited(7)));

    let mut sink = CollectStatus::default();
    let step = poller_step(exited_event(0), &mut sink);
    assert_eq!(step, PollStep::Finished);
    assert_eq!(sink.reports.len(), 1);
    assert!(sink.reports[0].success());
}

#[test]
fn still_running_polls_again() {
    let (step, report) = process_status(WaitEvent::StillRunning);
    assert_eq!(step, PollStep::SleepRetry);
    assert_eq!(report, None);
}

#[test]
fn wait_failure_finishes_without_a_report() {
    let (step, report) = process_status(WaitEvent::Failed);
    assert_eq!(step, PollStep::Finished);
    assert_eq!(report, None);
}

#[test]
fn default_sinks_discard() {
    let mut output = DiscardOutput;
    assert_eq!(reader_step(ReadEvent::Data(b"dropped\n".to_vec()), &mut output), ReadStep::Proceed);
    let mut status = DiscardStatus;
    assert_eq!(poller_step(exited_event(0), &mut status), PollStep::Finished);
}

#[test]
fn signal_status_is_not_success() {
    let status = ExitStatus::terminated_by_signal(2);
    assert!(!status.success());
    assert_eq!(status.code, 2);
    assert!(status.signaled);
    assert!(ExitStatus::exited(0).success());
    assert!(!ExitStatus::exited(1).success());
}

#[test]
fn environment_line_reaches_the_output() {
    let program = Program::new(
        "id1".to_string(),
        "env".to_string(),
        false,
        None,
        Vec::new(),
        vec![("VAR1".to_string(), "VAL1".to_string())],
        None,
        None,
        None,
    );
    let mut launcher = Launcher::new(&program);
    let plan = launcher.start().unwrap();
    assert!(plan.env.contains(&("VAR1".to_string(), "VAL1".to_string())));

    // The runtime would spawn `env` with that override; its output then
    // reaches the sink through the reader step.
    let mut sink = CollectOutput::default();
    reader_step(ReadEvent::Data(b"PATH=/bin\n".to_vec()), &mut sink);
    reader_step(ReadEvent::Data(b"VAR1=VAL1\n".to_vec()), &mut sink);
    let all = sink.chunks.concat();
    assert!(all.lines().any(|line| line.contains("VAR1=VAL1")));
}

#[test]
fn echo_scenario_reaches_both_sinks() {
    let program = Program::new(
        "id1".to_string(),
        "echo hello".to_string(),
        false,
        None,
        Vec::new(),
        Vec::new(),
        None,
        None,
        None,
    );
    let mut launcher = Launcher::new(&program);
    let plan = launcher.start().unwrap();
    assert_eq!(plan.program, "echo");
    launcher.keep_child(21);

    let mut output = CollectOutput::default();
    let step = reader_step(ReadEvent::Data(b"hello\n".to_vec()), &mut output);
    assert_eq!(step, ReadStep::Proceed);
    assert!(output.chunks.concat().contains("hello"));

    let mut status = CollectStatus::default();
    let step = poller_step(exited_event(0), &mut status);
    assert_eq!(step, PollStep::Finished);
    launcher.forget_child();
    assert!(status.reports[0].success());
    assert!(!launcher.is_running());
}

#[test]
fn async_stop_scenario_eventually_clears() {
    let program = Program::new(
        "id1".to_string(),
        "sh loop.sh".to_string(),
        false,
        None,
        Vec::new(),
        Vec::new(),
        None,
        None,
        None,
    );
    let mut launcher = Launcher::new(&program);
    let _plan = launcher.start().unwrap();
    launcher.keep_child(33);
    assert!(launcher.is_running());

    // The asynchronous stop only sends the interrupt; the poller later
    // observes the exit, reports it, and clears the slot.
    assert_eq!(launcher.plan_stop(), StopPlan::Terminate { pid: 33, superuser: false });
    let mut status = CollectStatus::default();
    let step = poller_step(signaled_event(2), &mut status);
    assert_eq!(step, PollStep::Finished);
    launcher.forget_child();
    assert!(!launcher.is_running());
    assert!(status.reports[0].signaled);
}

#[test]
fn component_messages_carry_supervisor_events() {
    let message = Message::ProgramStopped(ExitStatus::exited(0));
    match message {
        Message::ProgramStopped(status) => assert!(status.success()),
        _ => panic!("wrong variant"),
    }
    let message = Message::ProgramOutput("line\n".to_string());
    match message {
        Message::ProgramOutput(text) => assert_eq!(text, "line\n"),
        _ => panic!("wrong variant"),
    }
    let message = Message::TrayMenu(MenuAction::RUN);
    assert!(matches!(message, Message::TrayMenu(MenuAction::RUN)));
    let message = Message::Terminal(TerminalAction::HIDE);
    assert!(matches!(message, Message::Terminal(TerminalAction::HIDE)));
    let unknown = MenuAction::UNKNOWN("menu-9".to_string());
    match unknown {
        MenuAction::UNKNOWN(id) => assert_eq!(id, "menu-9"),
        _ => panic!("wrong variant"),
    }
}

fn exited_event(code: i32) -> WaitEvent {
    WaitEvent::Exited(ExitStatus::exited(code))
}

fn signaled_event(signal: i32) -> WaitEvent {
    WaitEvent::Exited(ExitStatus::terminated_by_signal(signal))
}
