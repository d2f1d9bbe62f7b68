//! What holds of every update, whatever the device answers.

use vstd::prelude::*;

use crate::archive::FirmwareBundle;
use crate::dfu::{lemma_bare_responses, DfuRequest};
use crate::protocol::{lemma_opcodes, AbortRequest};
use crate::checksum::crc32;
use crate::dfu::{frame_payload, request_bytes, DfuResponse};
use crate::protocol::{GetCrcResponse, ObjectExecuteRequest, ObjectSelectResponse};
use crate::transfer::window_end;
use crate::session::{
    asks, lemma_step_wf, reply_opcode, ActionView, EventView, Phase, State,
};

verus! {

/// The session and the actions that it has asked for after a sequence of
/// events, where it accepts each of them in turn.
pub open spec fn run(s: State, events: Seq<EventView>) -> Option<(State, Seq<ActionView>)>
    decreases events.len(),
{
    if events.len() == 0 {
        Some((s, Seq::empty()))
    } else {
        match run(s, events.drop_last()) {
            Some((before, actions)) => if before.accepts(events.last()) {
                Some((before.step(events.last()).0, actions.push(before.step(events.last()).1)))
            } else {
                None
            },
            None => None,
        }
    }
}

/// The actions of an update of `bundle` up to and including the one that
/// answers the last of `events`.
pub open spec fn trace(s: State, bundle: FirmwareBundle, events: Seq<EventView>) -> Seq<
    ActionView,
> {
    seq![s.start(bundle).1] + run(s.start(bundle).0, events).unwrap().1
}

/// Whether an action sends an abort request.
pub open spec fn is_abort(action: ActionView) -> bool {
    action matches ActionView::Request { payload, .. } && payload.len() > 0 && payload[0]
        == AbortRequest::REQUEST_OPCODE
}

/// The number of abort requests among `actions`.
pub open spec fn aborts(actions: Seq<ActionView>) -> nat
    decreases actions.len(),
{
    if actions.len() == 0 {
        0
    } else if is_abort(actions.last()) {
        aborts(actions.drop_last()) + 1
    } else {
        aborts(actions.drop_last())
    }
}

/// What one step does to the phase, told by its action: the session waits
/// for an abort to go out exactly when the action sends one, and has ended
/// exactly when the action ends the update; the update ends with an error
/// exactly when an abort has gone out before.
pub proof fn lemma_step_action(s: State, event: EventView)
    requires
        s.accepts(event),
    ensures
        s.step(event).0.phase == Phase::Abort <==> is_abort(s.step(event).1),
        s.step(event).0.phase == Phase::Finished <==> s.step(event).1 is Finish,
        s.step(event).1 matches ActionView::Finish { result } ==> (s.phase == Phase::Abort
            <==> result is Err),
        s.phase == Phase::Abort ==> s.step(event).1 == (ActionView::Finish {
            result: Err(s.failure.unwrap()),
        }),
{
    lemma_opcodes();
    lemma_bare_responses();
}

/// What the trace of an update tells about the phase it has reached.
spec fn traced(s: State, actions: Seq<ActionView>) -> bool {
    &&& actions.len() >= 1
    &&& match s.phase {
        Phase::Abort => aborts(actions) == 1 && is_abort(actions.last()),
        Phase::Finished => match actions.last() {
            ActionView::Finish { result: Err(_) } => aborts(actions) == 1 && actions.len() >= 2
                && is_abort(actions[actions.len() - 2]),
            ActionView::Finish { result: Ok(_) } => aborts(actions) == 0,
            _ => false,
        },
        _ => aborts(actions) == 0 && !(actions.last() is Finish),
    }
}

/// The trace of an update tells about the phase that it has reached.
proof fn lemma_traced(s: State, bundle: FirmwareBundle, events: Seq<EventView>)
    requires
        run(s.start(bundle).0, events) is Some,
    ensures
        traced(run(s.start(bundle).0, events).unwrap().0, trace(s, bundle, events)),
    decreases events.len(),
{
    lemma_opcodes();
    lemma_bare_responses();
    let actions = trace(s, bundle, events);
    if events.len() == 0 {
        assert(aborts(actions.drop_last()) == 0);
    } else {
        let head = events.drop_last();
        lemma_traced(s, bundle, head);
        lemma_step_action(run(s.start(bundle).0, head).unwrap().0, events.last());
        assert(actions.drop_last() =~= trace(s, bundle, head));
    }
}

/// Abort on failure: an update that ends with an error has sent exactly one
/// abort request, as the last thing before it ended. An update that ends
/// well has sent none, and no update sends more than one.
pub proof fn lemma_abort_on_failure(s: State, bundle: FirmwareBundle, events: Seq<EventView>)
    requires
        run(s.start(bundle).0, events) is Some,
    ensures
        ({
            let actions = trace(s, bundle, events);
            &&& aborts(actions) <= 1
            &&& (actions.last() matches ActionView::Finish { result: Err(_) } ==> {
                &&& aborts(actions) == 1
                &&& actions.len() >= 2
                &&& is_abort(actions[actions.len() - 2])
            })
            &&& (actions.last() matches ActionView::Finish { result: Ok(_) } ==> aborts(actions)
                == 0)
        }),
{
    lemma_traced(s, bundle, events);
}

/// Checksum invariant: once every write of a window has gone out, the
/// checksum of the session is the one with which the window began, continued
/// over the bytes of the window.
pub proof fn lemma_window_checksum(s: State)
    requires
        s.wf(),
        s.phase == Phase::Crc,
    ensures
        s.crc == crc32(s.window_crc, s.data().subrange(s.offset as int, s.window_end as int)),
{
}

/// A write leaves the window as it is: where it began, where it ends, and
/// the checksum with which it began.
pub proof fn lemma_write_keeps_window(s: State, event: EventView)
    requires
        s.phase == Phase::Create || s.phase == Phase::Write || s.phase == Phase::Receipt,
        s.accepts(event),
        s.step(event).0.phase != Phase::Abort,
    ensures
        s.step(event).0.offset == s.offset,
        s.step(event).0.window_end == s.window_end,
        s.step(event).0.window_crc == s.window_crc,
        s.step(event).0.phase == Phase::Write || s.step(event).0.phase == Phase::Receipt
            || s.step(event).0.phase == Phase::Crc,
{
    lemma_opcodes();
}

/// An execute request goes out only when the device has just reported the
/// checksum that the session holds, or at the start of an object whose
/// transfer is forced to start over.
pub proof fn lemma_execute_on_agreement(s: State, event: EventView)
    requires
        s.accepts(event),
        s.step(event).1 == asks(ObjectExecuteRequest),
    ensures
        event matches EventView::Response(frame) && match s.phase {
            Phase::Select => s.force || ObjectSelectResponse::parse(frame.skip(2)).crc
                == s.step(event).0.crc,
            Phase::Crc => GetCrcResponse::parse(frame.skip(2)).crc == s.step(event).0.crc,
            _ => false,
        },
{
    lemma_opcodes();
    lemma_bare_responses();
    let execute = request_bytes(ObjectExecuteRequest);
    assert(execute[0] == ObjectExecuteRequest::REQUEST_OPCODE);
}

/// Every session of a run that started well formed is well formed.
pub proof fn lemma_run_wf(s: State, events: Seq<EventView>)
    requires
        s.wf(),
        run(s, events) is Some,
    ensures
        run(s, events).unwrap().0.wf(),
    decreases events.len(),
{
    if events.len() > 0 {
        lemma_run_wf(s, events.drop_last());
        lemma_step_wf(run(s, events.drop_last()).unwrap().0, events.last());
    }
}

/// The session with another package in place of its own.
pub open spec fn with_bundle(s: State, bundle: FirmwareBundle) -> State {
    State { firmware: Some(bundle), ..s }
}

/// Whether two packages differ in nothing but the bootloader image.
pub open spec fn same_but_bootloader(a: FirmwareBundle, b: FirmwareBundle) -> bool {
    a.softdevice_bootloader == b.softdevice_bootloader && a.application == b.application
}

/// Whether two outcomes of a step are the same but for the package that
/// the session holds, which is `a` in the first.
pub open spec fn agree(x: (State, ActionView), y: (State, ActionView), a: FirmwareBundle) -> bool {
    x.1 == y.1 && x.0 == with_bundle(y.0, a)
}

/// The next write does not look at the bootloader image of a package that
/// has a softdevice.
proof fn lemma_write_object_ignores(s: State, a: FirmwareBundle, b: FirmwareBundle)
    requires
        a.softdevice_bootloader is Some,
        same_but_bootloader(a, b),
    ensures
        agree(with_bundle(s, a).write_object(), with_bundle(s, b).write_object(), a),
{
}

/// Nor does the opening of a window.
proof fn lemma_open_window_ignores(s: State, a: FirmwareBundle, b: FirmwareBundle)
    requires
        a.softdevice_bootloader is Some,
        same_but_bootloader(a, b),
    ensures
        agree(with_bundle(s, a).open_window(), with_bundle(s, b).open_window(), a),
{
    let opened = State {
        window_end: window_end(s.offset, s.max_size, with_bundle(s, a).len()),
        position: s.offset,
        prn_count: 0,
        window_crc: s.crc,
        ..s
    };
    lemma_write_object_ignores(opened, a, b);
}

/// Nor does the head of the transfer loop.
proof fn lemma_resume_ignores(s: State, a: FirmwareBundle, b: FirmwareBundle)
    requires
        a.softdevice_bootloader is Some,
        same_but_bootloader(a, b),
    ensures
        agree(with_bundle(s, a).resume(), with_bundle(s, b).resume(), a),
        with_bundle(s, a).resumable() == with_bundle(s, b).resumable(),
{
    lemma_open_window_ignores(s, a, b);
}

/// Nor does what the session makes of an answer.
proof fn lemma_answered_ignores(s: State, a: FirmwareBundle, b: FirmwareBundle, payload: Seq<u8>)
    requires
        a.softdevice_bootloader is Some,
        same_but_bootloader(a, b),
    ensures
        agree(with_bundle(s, a).answered(payload), with_bundle(s, b).answered(payload), a),
        with_bundle(s, a).admits(payload) == with_bundle(s, b).admits(payload),
{
    match s.phase {
        Phase::Select => {
            let located = State {
                expected_crc: crc32(0, with_bundle(s, a).data()),
                ..s.selected(ObjectSelectResponse::parse(payload))
            };
            lemma_resume_ignores(located, a, b);
        },
        Phase::Execute => {
            lemma_open_window_ignores(s, a, b);
        },
        Phase::Create | Phase::Receipt => {
            lemma_write_object_ignores(s, a, b);
        },
        Phase::Ping | Phase::ReceiptNotify | Phase::Mtu => {},
        _ => {
            lemma_resume_ignores(s.reported(GetCrcResponse::parse(payload)), a, b);
        },
    }
}

/// One step of a session does not look at the bootloader image of a
/// package that has a softdevice: whether an event is accepted, and what is
/// done on it, is the same for two packages that differ in that image alone.
pub proof fn lemma_step_ignores_bootloader(
    s: State,
    a: FirmwareBundle,
    b: FirmwareBundle,
    event: EventView,
)
    requires
        a.softdevice_bootloader is Some,
        same_but_bootloader(a, b),
    ensures
        with_bundle(s, a).accepts(event) == with_bundle(s, b).accepts(event),
        with_bundle(s, a).accepts(event) ==> agree(
            with_bundle(s, a).step(event),
            with_bundle(s, b).step(event),
            a,
        ),
{
    if s.awaits_reply() {
        match event {
            EventView::Response(frame) => {
                match frame_payload(frame, reply_opcode(s.phase)) {
                    Ok(payload) => {
                        lemma_answered_ignores(s, a, b, payload);
                    },
                    Err(error) => {},
                }
            },
            _ => {},
        }
    } else if s.phase == Phase::Write {
        lemma_write_object_ignores(s, a, b);
    }
}

/// Bundle precedence: where a package has a softdevice with its
/// bootloader, nothing that the update asks for depends on the bootloader
/// image of the package. Two packages that differ in that image alone give
/// the same actions, event for event.
pub proof fn lemma_bundle_precedence(
    s: State,
    a: FirmwareBundle,
    b: FirmwareBundle,
    events: Seq<EventView>,
)
    requires
        a.softdevice_bootloader is Some,
        same_but_bootloader(a, b),
    ensures
        s.start(a).1 == s.start(b).1,
        run(s.start(a).0, events) is Some <==> run(s.start(b).0, events) is Some,
        run(s.start(a).0, events) is Some ==> run(s.start(a).0, events).unwrap().1 == run(
            s.start(b).0,
            events,
        ).unwrap().1 && run(s.start(a).0, events).unwrap().0 == with_bundle(
            run(s.start(b).0, events).unwrap().0,
            a,
        ),
    decreases events.len(),
{
    if events.len() > 0 {
        let head = events.drop_last();
        lemma_bundle_precedence(s, a, b, head);
        if run(s.start(a).0, head) is Some {
            lemma_run_firmware(s.start(b).0, head);
            lemma_step_ignores_bootloader(run(s.start(b).0, head).unwrap().0, a, b, events.last());
        }
    }
}

/// A run keeps the package that it started with.
pub proof fn lemma_run_firmware(s: State, events: Seq<EventView>)
    requires
        run(s, events) is Some,
    ensures
        run(s, events).unwrap().0.firmware == s.firmware,
    decreases events.len(),
{
    if events.len() > 0 {
        lemma_run_firmware(s, events.drop_last());
    }
}

} // verus!
