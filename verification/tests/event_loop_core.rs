use std::collections::VecDeque;
use std::io;

use asyncritty::{
    output_applied, Event, EventLoopCore, EventLoopError, LoopAction, LoopInput, LoopStep, ReadOutcome, WindowSize,
};

type Step = LoopStep<&'static str, String>;
type Input = LoopInput<&'static str, String>;

fn size(num_lines: u16, num_cols: u16, cell_width: u16, cell_height: u16) -> WindowSize {
    WindowSize {
        num_lines,
        num_cols,
        cell_width,
        cell_height,
    }
}

fn initial() -> WindowSize {
    size(24, 80, 8, 16)
}

fn events(items: &[&'static str]) -> VecDeque<Event<&'static str>> {
    items.iter().map(|item| Event::Terminal(*item)).collect()
}

fn step(core: &mut EventLoopCore<&'static str>, running: bool, input: Input) -> Step {
    assert!(core.accepts(&input), "the core should accept the driver's report");
    core.step(running, input)
}

fn dispatched_terminal(step: &Step) -> Option<&'static str> {
    match step {
        LoopStep::Dispatch(Event::Terminal(name)) => Some(*name),
        _ => None,
    }
}

/// Drive a core through startup and one output read that emits `emitted`,
/// leaving it waiting to dispatch the first emitted event.
fn core_with_read_events(emitted: &[&'static str]) -> (EventLoopCore<&'static str>, Step) {
    let mut core = EventLoopCore::new(initial());
    assert!(matches!(step(&mut core, true, LoopInput::Begin(initial())), LoopStep::Select));
    let advance = step(&mut core, true, LoopInput::Selected(LoopAction::Read(ReadOutcome::Bytes(5))));
    assert!(matches!(advance, LoopStep::Advance(5)));
    let first = step(&mut core, true, LoopInput::TerminalUpdated(events(emitted)));
    (core, first)
}

#[test]
fn unchanged_size_starts_reading_immediately() {
    let mut core = EventLoopCore::<&'static str>::new(initial());
    assert!(core.is_idle());
    let first = step(&mut core, true, LoopInput::Begin(initial()));
    assert!(matches!(first, LoopStep::Select));
    assert_eq!(core.pending_len(), 0);
}

#[test]
fn output_events_are_dispatched_in_emission_order() {
    let (mut core, first) = core_with_read_events(&["title", "bell", "wakeup"]);
    assert_eq!(dispatched_terminal(&first), Some("title"));
    let second = step(&mut core, true, LoopInput::Delivered(Ok(())));
    assert_eq!(dispatched_terminal(&second), Some("bell"));
    let third = step(&mut core, true, LoopInput::Delivered(Ok(())));
    assert_eq!(dispatched_terminal(&third), Some("wakeup"));
    let next = step(&mut core, true, LoopInput::Delivered(Ok(())));
    assert!(matches!(next, LoopStep::Select));
}

#[test]
fn shutdown_retains_undelivered_events_for_next_run() {
    let (mut core, first) = core_with_read_events(&["title", "bell", "wakeup"]);
    assert_eq!(dispatched_terminal(&first), Some("title"));

    // Shutdown observed after the active callback: the run ends normally and
    // the two remaining events stay queued.
    let end = step(&mut core, false, LoopInput::Delivered(Ok(())));
    assert!(matches!(end, LoopStep::Finish(Ok(()))));
    assert!(core.is_idle());
    assert_eq!(core.pending_len(), 2);

    // The next run delivers them first, in order.
    let again = step(&mut core, true, LoopInput::Begin(initial()));
    assert_eq!(dispatched_terminal(&again), Some("bell"));
    let then = step(&mut core, true, LoopInput::Delivered(Ok(())));
    assert_eq!(dispatched_terminal(&then), Some("wakeup"));
    assert!(matches!(step(&mut core, true, LoopInput::Delivered(Ok(()))), LoopStep::Select));
}

#[test]
fn listener_error_ends_run_without_retrying_event() {
    let (mut core, first) = core_with_read_events(&["fail", "resumed"]);
    assert_eq!(dispatched_terminal(&first), Some("fail"));
    let end = step(&mut core, true, LoopInput::Delivered(Err("listener failed".to_string())));
    match end {
        LoopStep::Finish(Err(EventLoopError::Listener(message))) => {
            assert_eq!(message, "listener failed")
        }
        _ => panic!("a listener error should end the run with that error"),
    }
    assert_eq!(core.pending_len(), 1);

    let again = step(&mut core, true, LoopInput::Begin(initial()));
    assert_eq!(dispatched_terminal(&again), Some("resumed"));
}

#[test]
fn queued_events_precede_startup_resize() {
    let (mut core, _first) = core_with_read_events(&["queued"]);
    let end = step(&mut core, false, LoopInput::Delivered(Ok(())));
    assert!(matches!(end, LoopStep::Finish(Ok(()))));
    assert_eq!(core.pending_len(), 0);

    // Queue another event, then restart with a changed recorded size.
    let (mut core, _first) = core_with_read_events(&["first", "second"]);
    assert!(matches!(step(&mut core, false, LoopInput::Delivered(Ok(()))), LoopStep::Finish(Ok(()))));
    let recorded = size(31, 97, 9, 16);
    let start = step(&mut core, true, LoopInput::Begin(recorded));
    assert_eq!(dispatched_terminal(&start), Some("second"));
    let resize = step(&mut core, true, LoopInput::Delivered(Ok(())));
    match resize {
        LoopStep::ResizeTerminal(target) => assert_eq!(target, recorded),
        _ => panic!("the recorded size should be applied after the queued events"),
    }
    let result = step(&mut core, true, LoopInput::TerminalUpdated(events(&["redraw"])));
    assert_eq!(dispatched_terminal(&result), Some("redraw"));
    let reported = step(&mut core, true, LoopInput::Delivered(Ok(())));
    match reported {
        LoopStep::Dispatch(Event::ResizeResult(Ok(applied))) => assert_eq!(applied, recorded),
        _ => panic!("the resize result should follow the terminal's events"),
    }
    assert_eq!(core.window_size(), recorded);
    assert!(matches!(step(&mut core, true, LoopInput::Delivered(Ok(()))), LoopStep::Select));
}

#[test]
fn listener_error_before_startup_resize_defers_it() {
    let (mut core, _first) = core_with_read_events(&["a", "b"]);
    assert!(matches!(step(&mut core, false, LoopInput::Delivered(Ok(()))), LoopStep::Finish(Ok(()))));
    let recorded = size(31, 97, 8, 16);
    let start = step(&mut core, true, LoopInput::Begin(recorded));
    assert_eq!(dispatched_terminal(&start), Some("b"));
    let end = step(&mut core, true, LoopInput::Delivered(Err("stop".to_string())));
    assert!(matches!(end, LoopStep::Finish(Err(EventLoopError::Listener(_)))));
    assert_eq!(core.window_size(), initial());

    // The next run reconciles the size.
    let start = step(&mut core, true, LoopInput::Begin(recorded));
    assert!(matches!(start, LoopStep::ResizeTerminal(target) if target == recorded));
}

#[test]
fn cell_size_change_alone_is_reconciled() {
    let mut core = EventLoopCore::<&'static str>::new(initial());
    let recorded = size(24, 80, 9, 18);
    let start = step(&mut core, true, LoopInput::Begin(recorded));
    assert!(matches!(start, LoopStep::ResizeTerminal(target) if target == recorded));
}

#[test]
fn shutdown_before_run_skips_startup_resize() {
    let mut core = EventLoopCore::<&'static str>::new(initial());
    let start = step(&mut core, false, LoopInput::Begin(size(30, 90, 8, 16)));
    assert!(matches!(start, LoopStep::Finish(Ok(()))));
    assert_eq!(core.window_size(), initial());
}

#[test]
fn resize_request_updates_pty_then_terminal() {
    let mut core = EventLoopCore::<&'static str>::new(initial());
    step(&mut core, true, LoopInput::Begin(initial()));
    let requested = size(40, 120, 9, 18);
    let pty = step(&mut core, true, LoopInput::Selected(LoopAction::Resize(requested)));
    assert!(matches!(pty, LoopStep::ResizePty(target) if target == requested));
    let model = step(&mut core, true, LoopInput::PtyResized(Ok(())));
    assert!(matches!(model, LoopStep::ResizeTerminal(target) if target == requested));
    let reported = step(&mut core, true, LoopInput::TerminalUpdated(VecDeque::new()));
    assert!(matches!(reported, LoopStep::Dispatch(Event::ResizeResult(Ok(applied))) if applied == requested));
    assert_eq!(core.window_size(), requested);
}

#[test]
fn failed_pty_resize_keeps_model_size_and_reports_error() {
    let mut core = EventLoopCore::<&'static str>::new(initial());
    step(&mut core, true, LoopInput::Begin(initial()));
    let requested = size(40, 120, 9, 18);
    step(&mut core, true, LoopInput::Selected(LoopAction::Resize(requested)));
    let failed = io::Error::from(io::ErrorKind::PermissionDenied);
    let reported = step(&mut core, true, LoopInput::PtyResized(Err(failed)));
    match reported {
        LoopStep::Dispatch(Event::ResizeResult(Err(error))) => {
            assert_eq!(error.kind(), io::ErrorKind::PermissionDenied)
        }
        _ => panic!("the resize failure should be reported to the listener"),
    }
    assert_eq!(core.window_size(), initial());
    assert!(matches!(step(&mut core, true, LoopInput::Delivered(Ok(()))), LoopStep::Select));
}

#[test]
fn read_error_ends_run() {
    let mut core = EventLoopCore::<&'static str>::new(initial());
    step(&mut core, true, LoopInput::Begin(initial()));
    let outcome = ReadOutcome::Failed {
        error: io::Error::from(io::ErrorKind::BrokenPipe),
        slave_closed: false,
    };
    let end = step(&mut core, true, LoopInput::Selected(LoopAction::Read(outcome)));
    match end {
        LoopStep::Finish(Err(EventLoopError::Io(error))) => {
            assert_eq!(error.kind(), io::ErrorKind::BrokenPipe)
        }
        _ => panic!("a read error should end the run"),
    }
}

#[test]
fn slave_closure_is_end_of_file() {
    let mut core = EventLoopCore::<&'static str>::new(initial());
    step(&mut core, true, LoopInput::Begin(initial()));
    let outcome = ReadOutcome::Failed {
        error: io::Error::from_raw_os_error(5),
        slave_closed: true,
    };
    let probe = step(&mut core, true, LoopInput::Selected(LoopAction::Read(outcome)));
    assert!(matches!(probe, LoopStep::ProbeSync));
    let end = step(&mut core, true, LoopInput::SyncProbed(false));
    assert!(matches!(end, LoopStep::Finish(Ok(()))));
}

#[test]
fn end_of_file_flushes_synchronized_update() {
    let mut core = EventLoopCore::<&'static str>::new(initial());
    step(&mut core, true, LoopInput::Begin(initial()));
    let probe = step(&mut core, true, LoopInput::Selected(LoopAction::Read(ReadOutcome::Bytes(0))));
    assert!(matches!(probe, LoopStep::ProbeSync));
    let flush = step(&mut core, true, LoopInput::SyncProbed(true));
    assert!(matches!(flush, LoopStep::StopSync));
    let title = step(&mut core, true, LoopInput::TerminalUpdated(events(&["eof-flushed", "wakeup"])));
    assert_eq!(dispatched_terminal(&title), Some("eof-flushed"));
    let wakeup = step(&mut core, true, LoopInput::Delivered(Ok(())));
    assert_eq!(dispatched_terminal(&wakeup), Some("wakeup"));
    let end = step(&mut core, true, LoopInput::Delivered(Ok(())));
    assert!(matches!(end, LoopStep::Finish(Ok(()))));
}

#[test]
fn sync_timeout_applies_buffered_update() {
    let mut core = EventLoopCore::<&'static str>::new(initial());
    step(&mut core, true, LoopInput::Begin(initial()));
    let flush = step(&mut core, true, LoopInput::Selected(LoopAction::SyncTimeout));
    assert!(matches!(flush, LoopStep::StopSync));
    let next = step(&mut core, true, LoopInput::TerminalUpdated(VecDeque::new()));
    assert!(matches!(next, LoopStep::Select));
}

#[test]
fn stop_selection_ends_run() {
    let mut core = EventLoopCore::<&'static str>::new(initial());
    step(&mut core, true, LoopInput::Begin(initial()));
    let end = step(&mut core, true, LoopInput::Selected(LoopAction::Stop));
    assert!(matches!(end, LoopStep::Finish(Ok(()))));
    assert!(core.is_idle());
}

#[test]
fn mismatched_reports_are_refused() {
    let mut core = EventLoopCore::<&'static str>::new(initial());
    let input: Input = LoopInput::Delivered(Ok(()));
    assert!(!core.accepts(&input));
    let invalid: Input = LoopInput::Begin(size(0, 80, 8, 16));
    assert!(!core.accepts(&invalid));
    step(&mut core, true, LoopInput::Begin(initial()));
    let invalid_resize: Input = LoopInput::Selected(LoopAction::Resize(size(24, 1, 8, 16)));
    assert!(!core.accepts(&invalid_resize));
    let probe: Input = LoopInput::SyncProbed(true);
    assert!(!core.accepts(&probe));
}

#[test]
fn output_held_by_synchronized_update_is_not_applied() {
    assert!(output_applied(0, 5));
    assert!(output_applied(4, 5));
    assert!(!output_applied(5, 5));
    assert!(!output_applied(9, 2));
}
