//! The decisions of the event loop, as a step function from the loop's state
//! and the outcome of the previous action to the next action.
//!
//! The asynchronous driver performs each action (dispatching an event to the
//! listener, mutating the terminal model, resizing the PTY, waiting for the
//! next source of work) and reports its outcome back. The core keeps the
//! events not yet delivered, in emission order, and the window size last
//! applied to the terminal model.

use std::collections::VecDeque;

use vstd::prelude::*;

use crate::error::EventLoopError;
use crate::event::Event;
use crate::geometry::{same_window_size, valid_geometry, WindowSize};

verus! {

/// Outcome of one PTY read.
pub enum ReadOutcome {
    /// The read returned this many bytes; zero is end of file.
    Bytes(usize),
    /// The read failed. `slave_closed` tells whether the error is the
    /// platform's report that the slave end was closed, which counts as end of
    /// file.
    Failed { error: std::io::Error, slave_closed: bool },
}

/// The next source of work selected while the loop waits.
pub enum LoopAction {
    /// Lifecycle state no longer permits work.
    Stop,
    /// Latest resize claimed for processing.
    Resize(WindowSize),
    /// A synchronized-update deadline elapsed.
    SyncTimeout,
    /// Result of one PTY read.
    Read(ReadOutcome),
}

/// Where the loop goes once the queued events have been delivered.
#[derive(Clone, Copy)]
pub enum Continuation {
    /// Start of a run: reconcile the model with this size, which the PTY
    /// control recorded, before reading output.
    StartupCheck(WindowSize),
    /// Wait for the next source of work.
    LoopTop,
    /// End of file was reached: the run completes.
    Complete,
}

/// What the core waits for.
#[derive(Clone, Copy)]
pub enum Phase {
    /// No run is in progress.
    Idle,
    /// An event is being dispatched to the listener.
    Delivering(Continuation),
    /// The terminal model is being mutated. When `resized_to` holds a size,
    /// the mutation resizes the model to it.
    AwaitingTerminal { resized_to: Option<WindowSize>, then: Continuation },
    /// The PTY is being resized to this size.
    AwaitingPtyResize(WindowSize),
    /// The driver is waiting for the next source of work.
    AwaitingSelection,
    /// The driver reports whether a synchronized update is buffered.
    AwaitingSyncProbe,
}

/// The outcome of the previous action, reported by the driver.
pub enum LoopInput<T, E> {
    /// A run starts; the PTY control recorded this size.
    Begin(WindowSize),
    /// The listener callback for the dispatched event completed.
    Delivered(Result<(), E>),
    /// The next source of work.
    Selected(LoopAction),
    /// The terminal mutation completed and emitted these events, in order.
    TerminalUpdated(VecDeque<Event<T>>),
    /// The PTY resize completed.
    PtyResized(Result<(), std::io::Error>),
    /// Whether the parser holds a buffered synchronized update.
    SyncProbed(bool),
}

/// The next action for the driver.
pub enum LoopStep<T, E> {
    /// Invoke the listener callback for this event.
    Dispatch(Event<T>),
    /// Resize the terminal model to this size, which the PTY already has.
    ResizeTerminal(WindowSize),
    /// Resize the PTY to this size.
    ResizePty(WindowSize),
    /// Apply the buffered synchronized update to the terminal model.
    StopSync,
    /// Feed this many bytes of the read buffer to the parser.
    Advance(usize),
    /// Report whether a synchronized update is buffered.
    ProbeSync,
    /// Wait for the next source of work.
    Select,
    /// The run ends with this result.
    Finish(Result<(), EventLoopError<E>>),
}

/// The state of the core after a step, and the action it asks for.
pub struct Transition<T, E> {
    /// What the core waits for next.
    pub phase: Phase,
    /// Window size last applied to the terminal model.
    pub window_size: WindowSize,
    /// Events not yet dispatched, in emission order.
    pub pending: Seq<Event<T>>,
    /// The action for the driver.
    pub step: LoopStep<T, E>,
}

/// The run ends with `outcome`; undelivered events stay queued.
pub open spec fn finish<T, E>(
    window_size: WindowSize,
    pending: Seq<Event<T>>,
    outcome: Result<(), EventLoopError<E>>,
) -> Transition<T, E> {
    Transition { phase: Phase::Idle, window_size, pending, step: LoopStep::Finish(outcome) }
}

/// Top of the loop: a running loop waits for work; otherwise the run ends.
pub open spec fn loop_top<T, E>(
    running: bool,
    window_size: WindowSize,
    pending: Seq<Event<T>>,
) -> Transition<T, E> {
    if running {
        Transition { phase: Phase::AwaitingSelection, window_size, pending, step: LoopStep::Select }
    } else {
        finish(window_size, pending, Ok(()))
    }
}

/// Where the loop goes once delivery stops.
pub open spec fn resume<T, E>(
    running: bool,
    window_size: WindowSize,
    pending: Seq<Event<T>>,
    then: Continuation,
) -> Transition<T, E> {
    match then {
        Continuation::StartupCheck(size) => if !running {
            finish(window_size, pending, Ok(()))
        } else if size != window_size {
            Transition {
                phase: Phase::AwaitingTerminal { resized_to: Some(size), then: Continuation::LoopTop },
                window_size,
                pending,
                step: LoopStep::ResizeTerminal(size),
            }
        } else {
            loop_top(running, window_size, pending)
        },
        Continuation::LoopTop => loop_top(running, window_size, pending),
        Continuation::Complete => finish(window_size, pending, Ok(())),
    }
}

/// Deliver queued events in order while the loop is running: dispatch the
/// first one, or, when none is left or the loop no longer runs, resume.
pub open spec fn deliver<T, E>(
    running: bool,
    window_size: WindowSize,
    pending: Seq<Event<T>>,
    then: Continuation,
) -> Transition<T, E> {
    if running && pending.len() > 0 {
        Transition {
            phase: Phase::Delivering(then),
            window_size,
            pending: pending.drop_first(),
            step: LoopStep::Dispatch(pending[0]),
        }
    } else {
        resume(running, window_size, pending, then)
    }
}

/// Whether the core, in `phase`, can take `input`: each input answers the
/// action the phase waits for, a run may begin in any phase, and every size
/// handed to the core has at least one line and two columns.
pub open spec fn accepts<T, E>(phase: Phase, input: LoopInput<T, E>) -> bool {
    match input {
        LoopInput::Begin(size) => valid_geometry(size),
        LoopInput::Delivered(_) => phase is Delivering,
        LoopInput::Selected(action) => phase is AwaitingSelection && (action matches LoopAction::Resize(
            size,
        ) ==> valid_geometry(size)),
        LoopInput::TerminalUpdated(_) => phase is AwaitingTerminal,
        LoopInput::PtyResized(_) => phase is AwaitingPtyResize,
        LoopInput::SyncProbed(_) => phase is AwaitingSyncProbe,
    }
}

/// Every size the phase carries is a valid geometry.
pub open spec fn phase_wf(phase: Phase) -> bool {
    match phase {
        Phase::Delivering(Continuation::StartupCheck(size)) => valid_geometry(size),
        Phase::AwaitingTerminal { resized_to, then } => (resized_to matches Some(size)
            ==> valid_geometry(size)) && !(then is StartupCheck),
        Phase::AwaitingPtyResize(size) => valid_geometry(size),
        _ => true,
    }
}

/// Ask whether a synchronized update is buffered before completing at end
/// of file.
pub open spec fn probe<T, E>(window_size: WindowSize, pending: Seq<Event<T>>) -> Transition<
    T,
    E,
> {
    Transition { phase: Phase::AwaitingSyncProbe, window_size, pending, step: LoopStep::ProbeSync }
}

/// Mutate the terminal model without resizing it, then deliver and go to
/// `then`.
pub open spec fn mutate<T, E>(
    window_size: WindowSize,
    pending: Seq<Event<T>>,
    step: LoopStep<T, E>,
    then: Continuation,
) -> Transition<T, E> {
    Transition {
        phase: Phase::AwaitingTerminal { resized_to: None, then },
        window_size,
        pending,
        step,
    }
}

/// The transition of the event loop: from the phase, the model's window
/// size, the undelivered events, whether the lifecycle still permits work,
/// and the outcome of the previous action.
pub open spec fn next<T, E>(
    phase: Phase,
    window_size: WindowSize,
    pending: Seq<Event<T>>,
    running: bool,
    input: LoopInput<T, E>,
) -> Transition<T, E> {
    match input {
        LoopInput::Begin(size) => deliver(
            running,
            window_size,
            pending,
            Continuation::StartupCheck(size),
        ),
        LoopInput::Delivered(result) => match result {
            Err(error) => finish(window_size, pending, Err(EventLoopError::Listener(error))),
            Ok(()) => match phase {
                Phase::Delivering(then) => deliver(running, window_size, pending, then),
                _ => loop_top(running, window_size, pending),
            },
        },
        LoopInput::Selected(action) => match action {
            LoopAction::Stop => finish(window_size, pending, Ok(())),
            LoopAction::Resize(size) => Transition {
                phase: Phase::AwaitingPtyResize(size),
                window_size,
                pending,
                step: LoopStep::ResizePty(size),
            },
            LoopAction::SyncTimeout => mutate(
                window_size,
                pending,
                LoopStep::StopSync,
                Continuation::LoopTop,
            ),
            LoopAction::Read(outcome) => match outcome {
                ReadOutcome::Bytes(count) => if count == 0 {
                    probe(window_size, pending)
                } else {
                    mutate(window_size, pending, LoopStep::Advance(count), Continuation::LoopTop)
                },
                ReadOutcome::Failed { error, slave_closed } => if slave_closed {
                    probe(window_size, pending)
                } else {
                    finish(window_size, pending, Err(EventLoopError::Io(error)))
                },
            },
        },
        LoopInput::TerminalUpdated(events) => match phase {
            Phase::AwaitingTerminal { resized_to, then } => match resized_to {
                Some(size) => deliver(
                    running,
                    size,
                    (pending + events@).push(Event::ResizeResult(Ok(size))),
                    then,
                ),
                None => deliver(running, window_size, pending + events@, then),
            },
            _ => loop_top(running, window_size, pending + events@),
        },
        LoopInput::PtyResized(result) => match result {
            Err(error) => deliver(
                running,
                window_size,
                pending.push(Event::ResizeResult(Err(error))),
                Continuation::LoopTop,
            ),
            Ok(()) => match phase {
                Phase::AwaitingPtyResize(size) => Transition {
                    phase: Phase::AwaitingTerminal {
                        resized_to: Some(size),
                        then: Continuation::LoopTop,
                    },
                    window_size,
                    pending,
                    step: LoopStep::ResizeTerminal(size),
                },
                _ => loop_top(running, window_size, pending),
            },
        },
        LoopInput::SyncProbed(buffered) => if buffered {
            mutate(window_size, pending, LoopStep::StopSync, Continuation::Complete)
        } else {
            finish(window_size, pending, Ok(()))
        },
    }
}

/// The events an input adds to the queue: a terminal mutation appends the
/// events it emitted and, when it resized the model, then the successful
/// resize result; a failed PTY resize appends its error.
pub open spec fn appended<T, E>(phase: Phase, input: LoopInput<T, E>) -> Seq<Event<T>> {
    match input {
        LoopInput::TerminalUpdated(events) => match phase {
            Phase::AwaitingTerminal { resized_to: Some(size), .. } => events@.push(
                Event::ResizeResult(Ok(size)),
            ),
            _ => events@,
        },
        LoopInput::PtyResized(Err(error)) => seq![Event::ResizeResult(Err(error))],
        _ => Seq::empty(),
    }
}

/// The undelivered events once the outcome of the previous action has been
/// taken in: those already queued, then those the input appends.
pub open spec fn queued_after<T, E>(
    phase: Phase,
    pending: Seq<Event<T>>,
    input: LoopInput<T, E>,
) -> Seq<Event<T>> {
    pending + appended(phase, input)
}

/// Events are delivered serially in emission order and none is lost: each
/// step either dispatches the first queued event and keeps the rest, or keeps
/// every queued event, also when the run ends.
pub proof fn law_events_leave_queue_in_order<T, E>(
    phase: Phase,
    window_size: WindowSize,
    pending: Seq<Event<T>>,
    running: bool,
    input: LoopInput<T, E>,
)
    requires
        accepts(phase, input),
    ensures
        ({
            let queued = queued_after(phase, pending, input);
            let t = next(phase, window_size, pending, running, input);
            &&& t.step is Dispatch ==> queued.len() > 0 && t.step == LoopStep::<T, E>::Dispatch(
                queued[0],
            ) && t.pending == queued.drop_first()
            &&& !(t.step is Dispatch) ==> t.pending == queued
        }),
{
}

/// Once the lifecycle no longer permits work, no event is dispatched and no
/// new work is selected; the only terminal resize still made is the one for
/// a PTY resize that already succeeded.
pub proof fn law_no_new_work_after_shutdown<T, E>(
    phase: Phase,
    window_size: WindowSize,
    pending: Seq<Event<T>>,
    input: LoopInput<T, E>,
)
    requires
        accepts(phase, input),
    ensures
        ({
            let t = next(phase, window_size, pending, false, input);
            &&& !(t.step is Dispatch)
            &&& !(t.step is Select)
            &&& t.step is ResizeTerminal ==> input matches LoopInput::PtyResized(Ok(_))
        }),
{
}

/// The event an action dispatches, if any.
pub open spec fn dispatched_by<T, E>(step: LoopStep<T, E>) -> Seq<Event<T>> {
    match step {
        LoopStep::Dispatch(event) => seq![event],
        _ => Seq::empty(),
    }
}

/// The core after a sequence of steps, with the events dispatched and the
/// events appended along the way, and whether every input was taken in a
/// phase that accepts it.
pub struct Replay<T> {
    /// What the core waits for.
    pub phase: Phase,
    /// Window size last applied to the terminal model.
    pub window_size: WindowSize,
    /// Events not yet dispatched.
    pub pending: Seq<Event<T>>,
    /// Events dispatched, in order.
    pub dispatched: Seq<Event<T>>,
    /// Events appended to the queue, in order.
    pub emitted: Seq<Event<T>>,
    /// Whether each input was accepted in its phase.
    pub accepted: bool,
}

/// Take the steps in order, each with its lifecycle flag and input.
pub open spec fn replay<T, E>(
    phase: Phase,
    window_size: WindowSize,
    pending: Seq<Event<T>>,
    steps: Seq<(bool, LoopInput<T, E>)>,
) -> Replay<T>
    decreases steps.len(),
{
    if steps.len() == 0 {
        Replay {
            phase,
            window_size,
            pending,
            dispatched: Seq::empty(),
            emitted: Seq::empty(),
            accepted: true,
        }
    } else {
        let before = replay(phase, window_size, pending, steps.drop_last());
        let (running, input) = steps.last();
        let t = next(before.phase, before.window_size, before.pending, running, input);
        Replay {
            phase: t.phase,
            window_size: t.window_size,
            pending: t.pending,
            dispatched: before.dispatched + dispatched_by(t.step),
            emitted: before.emitted + appended(before.phase, input),
            accepted: before.accepted && accepts(before.phase, input),
        }
    }
}

/// Across any sequence of accepted steps, in and across runs, no event is
/// lost, duplicated or reordered: the events dispatched, followed by those
/// still queued, are the events queued at the start followed by every event
/// appended since.
pub proof fn law_every_event_is_delivered_once_in_order<T, E>(
    phase: Phase,
    window_size: WindowSize,
    pending: Seq<Event<T>>,
    steps: Seq<(bool, LoopInput<T, E>)>,
)
    requires
        replay(phase, window_size, pending, steps).accepted,
    ensures
        ({
            let r = replay(phase, window_size, pending, steps);
            r.dispatched + r.pending == pending + r.emitted
        }),
    decreases steps.len(),
{
    if steps.len() > 0 {
        let init = steps.drop_last();
        let before = replay(phase, window_size, pending, init);
        law_every_event_is_delivered_once_in_order(phase, window_size, pending, init);
        let (running, input) = steps.last();
        law_events_leave_queue_in_order(
            before.phase,
            before.window_size,
            before.pending,
            running,
            input,
        );
        let t = next(before.phase, before.window_size, before.pending, running, input);
        let queued = queued_after(before.phase, before.pending, input);
        let added = appended(before.phase, input);
        let r = replay(phase, window_size, pending, steps);
        assert(r.emitted == before.emitted + added);
        assert(r.dispatched == before.dispatched + dispatched_by(t.step));
        if t.step is Dispatch {
            assert(dispatched_by(t.step) == seq![queued[0]]);
            assert(seq![queued[0]] + queued.drop_first() =~= queued);
            assert(r.dispatched + r.pending =~= before.dispatched + queued);
        } else {
            assert(dispatched_by(t.step) =~= Seq::<Event<T>>::empty());
            assert(r.dispatched + r.pending =~= before.dispatched + queued);
        }
        assert(before.dispatched + queued =~= (before.dispatched + before.pending) + added);
        assert(pending + r.emitted =~= (pending + before.emitted) + added);
    }
}

/// A listener error ends the run with that error; the failed event is not
/// retried and the events after it stay queued.
pub proof fn law_listener_error_ends_run<T, E>(
    phase: Phase,
    window_size: WindowSize,
    pending: Seq<Event<T>>,
    running: bool,
    error: E,
)
    ensures
        ({
            let t = next(
                phase,
                window_size,
                pending,
                running,
                LoopInput::<T, E>::Delivered(Err(error)),
            );
            &&& t.step == LoopStep::<T, E>::Finish(Err(EventLoopError::Listener(error)))
            &&& t.phase is Idle
            &&& t.pending == pending
            &&& t.window_size == window_size
        }),
{
}

/// The model's size changes only when a terminal mutation that resized it
/// completes, and then to the size it was resized to; a failed PTY resize
/// keeps the model's size and reports the failure after the queued events.
pub proof fn law_model_size_follows_applied_resizes<T, E>(
    phase: Phase,
    window_size: WindowSize,
    pending: Seq<Event<T>>,
    running: bool,
    input: LoopInput<T, E>,
)
    requires
        accepts(phase, input),
    ensures
        ({
            let t = next(phase, window_size, pending, running, input);
            &&& t.window_size != window_size ==> (input is TerminalUpdated && (
            phase matches Phase::AwaitingTerminal { resized_to: Some(size), .. } && t.window_size
                == size))
            &&& (input matches LoopInput::PtyResized(Err(error)) ==> (t.window_size == window_size
                && queued_after(phase, pending, input) == pending.push(
                Event::ResizeResult(Err(error)),
            )))
        }),
{
}

/// At the start of a run, queued events are delivered before the recorded
/// size is reconciled; once they are delivered, the model is resized only if
/// the recorded size differs in some field, and a run whose shutdown was
/// requested ends without resizing.
pub proof fn law_startup_reconciles_after_queued_events<T, E>(
    phase: Phase,
    window_size: WindowSize,
    pending: Seq<Event<T>>,
    running: bool,
    size: WindowSize,
    input: LoopInput<T, E>,
)
    requires
        accepts(phase, input),
        input == LoopInput::<T, E>::Begin(size) || (phase == Phase::Delivering(
            Continuation::StartupCheck(size),
        ) && input matches LoopInput::Delivered(Ok(_))),
    ensures
        ({
            let t = next(phase, window_size, pending, running, input);
            &&& running && pending.len() > 0 ==> t.step == LoopStep::<T, E>::Dispatch(pending[0])
                && t.phase == Phase::Delivering(Continuation::StartupCheck(size))
            &&& running && pending.len() == 0 && size != window_size ==> t.step
                == LoopStep::<T, E>::ResizeTerminal(size)
            &&& running && pending.len() == 0 && size == window_size ==> t.step is Select
            &&& !running ==> t.step == LoopStep::<T, E>::Finish(Ok(())) && t.pending == pending
        }),
{
}

/// Reading classifies its outcome: bytes are fed to the parser, end of file
/// (a read of zero bytes or the platform's slave-closure error) completes
/// the run after any buffered synchronized update is applied and delivered,
/// and any other read error ends the run with that error.
pub proof fn law_read_outcomes<T, E>(
    window_size: WindowSize,
    pending: Seq<Event<T>>,
    running: bool,
    outcome: ReadOutcome,
)
    ensures
        ({
            let t = next(
                Phase::AwaitingSelection,
                window_size,
                pending,
                running,
                LoopInput::<T, E>::Selected(LoopAction::Read(outcome)),
            );
            match outcome {
                ReadOutcome::Bytes(count) => if count > 0 {
                    t.step == LoopStep::<T, E>::Advance(count)
                } else {
                    t.step is ProbeSync
                },
                ReadOutcome::Failed { error, slave_closed } => if slave_closed {
                    t.step is ProbeSync
                } else {
                    t.step == LoopStep::<T, E>::Finish(Err(EventLoopError::Io(error)))
                },
            }
        }),
{
}

/// Whether the phase belongs to the completion of a run at end of file.
pub open spec fn completing(phase: Phase) -> bool {
    match phase {
        Phase::AwaitingSyncProbe => true,
        Phase::Delivering(Continuation::Complete) => true,
        Phase::AwaitingTerminal { then: Continuation::Complete, .. } => true,
        _ => false,
    }
}

/// After end of file the loop never waits for more work: it applies a
/// buffered synchronized update, delivers the events, and ends the run,
/// normally unless a listener callback fails.
pub proof fn law_end_of_file_completes_run<T, E>(
    phase: Phase,
    window_size: WindowSize,
    pending: Seq<Event<T>>,
    running: bool,
    input: LoopInput<T, E>,
)
    requires
        accepts(phase, input),
        completing(phase),
        !(input is Begin),
    ensures
        ({
            let t = next(phase, window_size, pending, running, input);
            &&& !(t.step is Select)
            &&& t.step is Dispatch ==> completing(t.phase)
            &&& t.step is StopSync ==> completing(t.phase)
            &&& t.step matches LoopStep::Finish(Err(error)) ==> error is Listener
            &&& t.step is Dispatch || t.step is StopSync || t.step is Finish
        }),
{
}

/// Whether feeding `count` bytes to the parser applied an update to the
/// terminal model: not all of them are held back by synchronized-update
/// buffering, which then holds `sync_bytes` bytes.
pub fn output_applied(sync_bytes: usize, count: usize) -> (applied: bool)
    ensures
        applied == (sync_bytes < count),
{
    sync_bytes < count
}

/// A run or a selected resize accepts exactly the geometries with at least
/// one line and at least two columns, whatever their other fields.
pub proof fn law_accepted_geometry_is_one_line_two_columns<T, E>(phase: Phase, size: WindowSize)
    ensures
        accepts(phase, LoopInput::<T, E>::Begin(size)) <==> (size.num_lines >= 1
            && size.num_cols >= 2),
        accepts(Phase::AwaitingSelection, LoopInput::<T, E>::Selected(LoopAction::Resize(size)))
            <==> (size.num_lines >= 1 && size.num_cols >= 2),
{
}

/// Every selected resize request is carried out, whatever the model's
/// current size: the PTY is resized to the requested size first.
pub proof fn law_selected_resize_resizes_pty<T, E>(
    window_size: WindowSize,
    pending: Seq<Event<T>>,
    running: bool,
    size: WindowSize,
)
    ensures
        ({
            let t = next(
                Phase::AwaitingSelection,
                window_size,
                pending,
                running,
                LoopInput::<T, E>::Selected(LoopAction::Resize(size)),
            );
            &&& t.step == LoopStep::<T, E>::ResizePty(size)
            &&& t.phase == Phase::AwaitingPtyResize(size)
            &&& t.window_size == window_size
            &&& t.pending == pending
        }),
{
}

/// Whenever the core asks for the terminal model to be resized, it waits
/// for that very resize, so that its completion records the size and reports
/// it, and then goes on waiting for work.
pub proof fn law_terminal_resize_is_recorded<T, E>(
    phase: Phase,
    window_size: WindowSize,
    pending: Seq<Event<T>>,
    running: bool,
    input: LoopInput<T, E>,
)
    requires
        accepts(phase, input),
    ensures
        ({
            let t = next(phase, window_size, pending, running, input);
            forall|size: WindowSize|
                t.step == LoopStep::<T, E>::ResizeTerminal(size) ==> t.phase
                    == Phase::AwaitingTerminal {
                    resized_to: Some(size),
                    then: Continuation::LoopTop,
                }
        }),
{
}

/// A resize request that the PTY accepts ends with the model at the
/// requested size and the successful result queued after the model's own
/// events; once those are delivered, the running loop waits for more work.
/// A request that the PTY refuses keeps the model's size and queues the
/// error.
pub proof fn law_resize_request_round_trip<T, E>(
    window_size: WindowSize,
    pending: Seq<Event<T>>,
    size: WindowSize,
    events: VecDeque<Event<T>>,
    error: std::io::Error,
)
    ensures
        ({
            let t1 = next(
                Phase::AwaitingSelection,
                window_size,
                pending,
                true,
                LoopInput::<T, E>::Selected(LoopAction::Resize(size)),
            );
            let t2 = next(
                t1.phase,
                t1.window_size,
                t1.pending,
                true,
                LoopInput::<T, E>::PtyResized(Ok(())),
            );
            let t3 = next(
                t2.phase,
                t2.window_size,
                t2.pending,
                true,
                LoopInput::<T, E>::TerminalUpdated(events),
            );
            let failed = next(
                t1.phase,
                t1.window_size,
                t1.pending,
                true,
                LoopInput::<T, E>::PtyResized(Err(error)),
            );
            &&& t2.step == LoopStep::<T, E>::ResizeTerminal(size)
            &&& t3.window_size == size
            &&& dispatched_by(t3.step) + t3.pending == (pending + events@).push(
                Event::ResizeResult(Ok(size)),
            )
            &&& t3.phase == Phase::Delivering(Continuation::LoopTop)
            &&& failed.window_size == window_size
            &&& dispatched_by(failed.step) + failed.pending == pending.push(
                Event::ResizeResult(Err(error)),
            )
            &&& failed.phase == Phase::Delivering(Continuation::LoopTop)
        }),
{
    let t1 = next(
        Phase::AwaitingSelection,
        window_size,
        pending,
        true,
        LoopInput::<T, E>::Selected(LoopAction::Resize(size)),
    );
    let t2 = next(t1.phase, t1.window_size, t1.pending, true, LoopInput::<T, E>::PtyResized(Ok(())));
    let t3 = next(t2.phase, t2.window_size, t2.pending, true, LoopInput::<T, E>::TerminalUpdated(events));
    let q = (pending + events@).push(Event::ResizeResult(Ok(size)));
    assert(seq![q[0]] + q.drop_first() =~= q);
    let f = pending.push(Event::ResizeResult(Err(error)));
    assert(seq![f[0]] + f.drop_first() =~= f);
}

/// Once the events queued before waiting for work are delivered, a running
/// loop waits for more work rather than ending the run.
pub proof fn law_delivery_returns_to_waiting<T, E>(window_size: WindowSize)
    ensures
        next(
            Phase::Delivering(Continuation::LoopTop),
            window_size,
            Seq::<Event<T>>::empty(),
            true,
            LoopInput::<T, E>::Delivered(Ok(())),
        ).step is Select,
{
}

/// At the start of a run with nothing queued, and likewise once the last
/// queued event has been delivered, a recorded size that differs from the
/// model's resizes the model; when that resize completes, the model has the
/// recorded size and the successful result is queued after the model's own
/// events.
pub proof fn law_startup_resize_is_recorded_and_reported<T, E>(
    phase: Phase,
    window_size: WindowSize,
    size: WindowSize,
    input: LoopInput<T, E>,
    running: bool,
    events: VecDeque<Event<T>>,
)
    requires
        input == LoopInput::<T, E>::Begin(size) || (phase == Phase::Delivering(
            Continuation::StartupCheck(size),
        ) && input matches LoopInput::Delivered(Ok(_))),
        size != window_size,
    ensures
        ({
            let t1 = next(phase, window_size, Seq::<Event<T>>::empty(), true, input);
            let t2 = next(
                t1.phase,
                t1.window_size,
                t1.pending,
                running,
                LoopInput::<T, E>::TerminalUpdated(events),
            );
            &&& t1.step == LoopStep::<T, E>::ResizeTerminal(size)
            &&& t1.phase == Phase::AwaitingTerminal {
                resized_to: Some(size),
                then: Continuation::LoopTop,
            }
            &&& t2.window_size == size
            &&& dispatched_by(t2.step) + t2.pending == events@.push(Event::ResizeResult(Ok(size)))
        }),
{
    let q = events@.push(Event::ResizeResult(Ok(size)));
    assert(Seq::<Event<T>>::empty() + events@ =~= events@);
    assert(seq![q[0]] + q.drop_first() =~= q);
    assert(Seq::<Event<T>>::empty() + q =~= q);
}

/// While the loop is running, a run ends only after a stop selection, a read
/// error, a listener error, or in the completion that follows end of file;
/// and that completion is entered only from a read that reached end of file.
pub proof fn law_running_loop_ends_only_for_a_reason<T, E>(
    phase: Phase,
    window_size: WindowSize,
    pending: Seq<Event<T>>,
    input: LoopInput<T, E>,
)
    requires
        accepts(phase, input),
        phase_wf(phase),
    ensures
        ({
            let t = next(phase, window_size, pending, true, input);
            &&& t.step is Finish ==> (input matches LoopInput::Selected(LoopAction::Stop)
                || input matches LoopInput::Selected(
                LoopAction::Read(ReadOutcome::Failed { slave_closed: false, .. }),
            ) || input matches LoopInput::Delivered(Err(_)) || completing(phase))
            &&& completing(t.phase) ==> (completing(phase) || input matches LoopInput::Selected(
                LoopAction::Read(_),
            ))
        }),
{
}

/// A stop selection ends the run normally and keeps every queued event; an
/// elapsed synchronized-update deadline applies the buffered update and then
/// returns to waiting for work; at end of file, a buffered update is applied
/// before the run completes, and with none buffered the run ends normally.
pub proof fn law_other_selections<T, E>(
    window_size: WindowSize,
    pending: Seq<Event<T>>,
    running: bool,
    events: VecDeque<Event<T>>,
)
    ensures
        ({
            let stop = next(
                Phase::AwaitingSelection,
                window_size,
                pending,
                running,
                LoopInput::<T, E>::Selected(LoopAction::Stop),
            );
            let flush = next(
                Phase::AwaitingSelection,
                window_size,
                pending,
                running,
                LoopInput::<T, E>::Selected(LoopAction::SyncTimeout),
            );
            let flushed = next(
                flush.phase,
                flush.window_size,
                flush.pending,
                true,
                LoopInput::<T, E>::TerminalUpdated(events),
            );
            let unbuffered = next(
                Phase::AwaitingSyncProbe,
                window_size,
                pending,
                running,
                LoopInput::<T, E>::SyncProbed(false),
            );
            let buffered = next(
                Phase::AwaitingSyncProbe,
                window_size,
                pending,
                running,
                LoopInput::<T, E>::SyncProbed(true),
            );
            &&& stop.step == LoopStep::<T, E>::Finish(Ok(())) && stop.pending == pending
                && stop.window_size == window_size
            &&& flush.step is StopSync && flush.window_size == window_size
            &&& flushed.window_size == window_size
            &&& (pending + events@).len() == 0 ==> flushed.step is Select
            &&& unbuffered.step == LoopStep::<T, E>::Finish(Ok(())) && unbuffered.pending == pending
            &&& buffered.step is StopSync && completing(buffered.phase)
        }),
{
}

/// State of the event loop that its decisions read: what it waits for, the
/// window size last applied to the terminal model, and the events not yet
/// dispatched to the listener.
pub struct EventLoopCore<T> {
    /// What the core waits for.
    phase: Phase,
    /// Window size last applied to the terminal model.
    window_size: WindowSize,
    /// Events not yet dispatched, retained in emission order between runs.
    pending: VecDeque<Event<T>>,
}

impl<T> EventLoopCore<T> {
    /// What the core waits for.
    pub closed spec fn current_phase(&self) -> Phase {
        self.phase
    }

    /// Window size last applied to the terminal model.
    pub closed spec fn model_size(&self) -> WindowSize {
        self.window_size
    }

    /// Events not yet dispatched, in emission order.
    pub closed spec fn queued(&self) -> Seq<Event<T>> {
        self.pending@
    }

    /// The model's size and every size the phase carries are valid
    /// geometries.
    pub closed spec fn wf(&self) -> bool {
        valid_geometry(self.window_size) && phase_wf(self.phase)
    }

    /// A core for a terminal model created with `window_size`: idle, with no
    /// queued event.
    pub fn new(window_size: WindowSize) -> (core: Self)
        requires
            valid_geometry(window_size),
        ensures
            core.wf(),
            core.current_phase() is Idle,
            core.model_size() == window_size,
            core.queued() == Seq::<Event<T>>::empty(),
    {
        EventLoopCore { phase: Phase::Idle, window_size, pending: VecDeque::new() }
    }

    /// Window size last applied to the terminal model.
    pub fn window_size(&self) -> (size: WindowSize)
        ensures
            size == self.model_size(),
    {
        self.window_size
    }

    /// Number of events not yet dispatched.
    pub fn pending_len(&self) -> (count: usize)
        ensures
            count == self.queued().len(),
    {
        self.pending.len()
    }

    /// Whether no run is in progress.
    pub fn is_idle(&self) -> (idle: bool)
        ensures
            idle == (self.current_phase() is Idle),
    {
        match self.phase {
            Phase::Idle => true,
            _ => false,
        }
    }

    /// Whether the core can take `input` in its current phase.
    pub fn accepts<E>(&self, input: &LoopInput<T, E>) -> (accepted: bool)
        ensures
            accepted == accepts(self.current_phase(), *input),
    {
        match input {
            LoopInput::Begin(size) => size.num_lines > 0 && size.num_cols >= 2,
            LoopInput::Delivered(_) => match self.phase {
                Phase::Delivering(_) => true,
                _ => false,
            },
            LoopInput::Selected(action) => match self.phase {
                Phase::AwaitingSelection => match action {
                    LoopAction::Resize(size) => size.num_lines > 0 && size.num_cols >= 2,
                    _ => true,
                },
                _ => false,
            },
            LoopInput::TerminalUpdated(_) => match self.phase {
                Phase::AwaitingTerminal { .. } => true,
                _ => false,
            },
            LoopInput::PtyResized(_) => match self.phase {
                Phase::AwaitingPtyResize(_) => true,
                _ => false,
            },
            LoopInput::SyncProbed(_) => match self.phase {
                Phase::AwaitingSyncProbe => true,
                _ => false,
            },
        }
    }

    fn finish<E>(&mut self, outcome: Result<(), EventLoopError<E>>) -> (step: LoopStep<T, E>)
        requires
            old(self).wf(),
        ensures
            final(self).wf(),
            ({
                let t = finish::<T, E>(old(self).window_size, old(self).pending@, outcome);
                final(self).phase == t.phase && final(self).window_size == t.window_size
                    && final(self).pending@ == t.pending && step == t.step
            }),
    {
        self.phase = Phase::Idle;
        LoopStep::Finish(outcome)
    }

    fn loop_top<E>(&mut self, running: bool) -> (step: LoopStep<T, E>)
        requires
            old(self).wf(),
        ensures
            final(self).wf(),
            ({
                let t = loop_top::<T, E>(running, old(self).window_size, old(self).pending@);
                final(self).phase == t.phase && final(self).window_size == t.window_size
                    && final(self).pending@ == t.pending && step == t.step
            }),
    {
        if running {
            self.phase = Phase::AwaitingSelection;
            LoopStep::Select
        } else {
            self.finish(Ok(()))
        }
    }

    fn resume<E>(&mut self, running: bool, then: Continuation) -> (step: LoopStep<T, E>)
        requires
            old(self).wf(),
            then matches Continuation::StartupCheck(size) ==> valid_geometry(size),
        ensures
            final(self).wf(),
            ({
                let t = resume::<T, E>(running, old(self).window_size, old(self).pending@, then);
                final(self).phase == t.phase && final(self).window_size == t.window_size
                    && final(self).pending@ == t.pending && step == t.step
            }),
    {
        match then {
            Continuation::StartupCheck(size) => {
                if !running {
                    self.finish(Ok(()))
                } else if !same_window_size(size, self.window_size) {
                    self.phase = Phase::AwaitingTerminal {
                        resized_to: Some(size),
                        then: Continuation::LoopTop,
                    };
                    LoopStep::ResizeTerminal(size)
                } else {
                    self.loop_top(running)
                }
            },
            Continuation::LoopTop => self.loop_top(running),
            Continuation::Complete => self.finish(Ok(())),
        }
    }

    fn deliver<E>(&mut self, running: bool, then: Continuation) -> (step: LoopStep<T, E>)
        requires
            old(self).wf(),
            then matches Continuation::StartupCheck(size) ==> valid_geometry(size),
        ensures
            final(self).wf(),
            ({
                let t = deliver::<T, E>(running, old(self).window_size, old(self).pending@, then);
                final(self).phase == t.phase && final(self).window_size == t.window_size
                    && final(self).pending@ == t.pending && step == t.step
            }),
    {
        if running {
            if let Some(event) = self.pending.pop_front() {
                assert(self.pending@ =~= old(self).pending@.drop_first());
                self.phase = Phase::Delivering(then);
                return LoopStep::Dispatch(event);
            }
        }
        self.resume(running, then)
    }

    /// Take the outcome of the previous action and return the next action.
    ///
    /// `running` tells whether the lifecycle still permits work. The new state
    /// and the action are those of [`next`].
    pub fn step<E>(&mut self, running: bool, input: LoopInput<T, E>) -> (step: LoopStep<T, E>)
        requires
            old(self).wf(),
            accepts(old(self).current_phase(), input),
        ensures
            final(self).wf(),
            ({
                let t = next(
                    old(self).current_phase(),
                    old(self).model_size(),
                    old(self).queued(),
                    running,
                    input,
                );
                final(self).current_phase() == t.phase && final(self).model_size() == t.window_size
                    && final(self).queued() == t.pending && step == t.step
            }),
    {
        match input {
            LoopInput::Begin(size) => self.deliver(running, Continuation::StartupCheck(size)),
            LoopInput::Delivered(result) => match result {
                Err(error) => self.finish(Err(EventLoopError::Listener(error))),
                Ok(()) => match self.phase {
                    Phase::Delivering(then) => self.deliver(running, then),
                    _ => self.loop_top(running),
                },
            },
            LoopInput::Selected(action) => match action {
                LoopAction::Stop => self.finish(Ok(())),
                LoopAction::Resize(size) => {
                    self.phase = Phase::AwaitingPtyResize(size);
                    LoopStep::ResizePty(size)
                },
                LoopAction::SyncTimeout => {
                    self.phase = Phase::AwaitingTerminal {
                        resized_to: None,
                        then: Continuation::LoopTop,
                    };
                    LoopStep::StopSync
                },
                LoopAction::Read(outcome) => match outcome {
                    ReadOutcome::Bytes(count) => {
                        if count == 0 {
                            self.phase = Phase::AwaitingSyncProbe;
                            LoopStep::ProbeSync
                        } else {
                            self.phase = Phase::AwaitingTerminal {
                                resized_to: None,
                                then: Continuation::LoopTop,
                            };
                            LoopStep::Advance(count)
                        }
                    },
                    ReadOutcome::Failed { error, slave_closed } => {
                        if slave_closed {
                            self.phase = Phase::AwaitingSyncProbe;
                            LoopStep::ProbeSync
                        } else {
                            self.finish(Err(EventLoopError::Io(error)))
                        }
                    },
                },
            },
            LoopInput::TerminalUpdated(events) => {
                let mut events = events;
                match self.phase {
                    Phase::AwaitingTerminal { resized_to, then } => {
                        self.pending.append(&mut events);
                        match resized_to {
                            Some(size) => {
                                self.window_size = size;
                                self.pending.push_back(Event::ResizeResult(Ok(size)));
                                self.deliver(running, then)
                            },
                            None => self.deliver(running, then),
                        }
                    },
                    _ => {
                        self.pending.append(&mut events);
                        self.loop_top(running)
                    },
                }
            },
            LoopInput::PtyResized(result) => match result {
                Err(error) => {
                    self.pending.push_back(Event::ResizeResult(Err(error)));
                    self.deliver(running, Continuation::LoopTop)
                },
                Ok(()) => match self.phase {
                    Phase::AwaitingPtyResize(size) => {
                        self.phase = Phase::AwaitingTerminal {
                            resized_to: Some(size),
                            then: Continuation::LoopTop,
                        };
                        LoopStep::ResizeTerminal(size)
                    },
                    _ => self.loop_top(running),
                },
            },
            LoopInput::SyncProbed(buffered) => {
                if buffered {
                    self.phase = Phase::AwaitingTerminal {
                        resized_to: None,
                        then: Continuation::Complete,
                    };
                    LoopStep::StopSync
                } else {
                    self.finish(Ok(()))
                }
            },
        }
    }
}

} // verus!
