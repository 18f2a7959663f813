//! What holds of every run of a bridge: the events it sends are the frames
//! of the bytes it was given, in their order, and an error is sent once and
//! last.

use crate::bridge::{ActionView, BridgeView, Report, Stage};
use crate::error::{Error, IoError};
use crate::event::EventView;
use crate::frame::{Parse, parse_frame, parse_path};
use crate::frame_laws::{
    asked_bytes_stay_in_frame,
    cut_frame_is_incomplete,
    decided_front_ignores_what_follows,
    frame_alone,
    frame_lies_within,
};
use vstd::prelude::*;

verus! {

/// Whether `bytes` are whole frames and nothing else, and `items` their
/// events in the same order.
pub open spec fn whole_frames<E>(bytes: Seq<u8>, items: Seq<Result<EventView, Error<E>>>) -> bool
    decreases items.len(),
{
    if items.len() == 0 {
        bytes.len() == 0
    } else {
        &&& parse_frame(bytes) is Complete
        &&& items[0] == Ok::<EventView, Error<E>>(parse_frame(bytes)->event)
        &&& whole_frames(bytes.skip(parse_frame(bytes)->len as int), items.skip(1))
    }
}

/// A run so far: the state of the bridge, all bytes it took in, and all
/// items it had sent.
pub struct Trace<E> {
    pub state: BridgeView,
    pub fed: Seq<u8>,
    pub sent: Seq<Result<EventView, Error<E>>>,
}

impl<E> Trace<E> {
    /// The beginning of a run.
    pub open spec fn begin() -> Trace<E> {
        Trace {
            state: BridgeView { stage: Stage::Open, held: Seq::empty() },
            fed: Seq::empty(),
            sent: Seq::empty(),
        }
    }

    /// The run after one more report.
    pub open spec fn step(self, report: Report<E>) -> Trace<E> {
        let (state, action) = self.state.react(report);
        Trace {
            state,
            fed: match report {
                Report::Received(bytes) => if self.state.stage == Stage::Open {
                    self.fed + bytes
                } else {
                    self.fed
                },
                _ => self.fed,
            },
            sent: match action {
                ActionView::Send(item) => self.sent.push(item),
                _ => self.sent,
            },
        }
    }

    /// The run after a sequence of reports.
    pub open spec fn run(self, reports: Seq<Report<E>>) -> Trace<E>
        decreases reports.len(),
    {
        if reports.len() == 0 {
            self
        } else {
            self.step(reports[0]).run(reports.skip(1))
        }
    }

    /// Whether an error has been sent.
    pub open spec fn errored(self) -> bool {
        self.sent.len() > 0 && self.sent.last() is Err
    }

    /// The items sent before the error, if there is one.
    pub open spec fn sent_before_error(self) -> Seq<Result<EventView, Error<E>>> {
        if self.errored() {
            self.sent.drop_last()
        } else {
            self.sent
        }
    }

    /// The bytes taken in that are no longer held.
    pub open spec fn consumed(self) -> Seq<u8> {
        self.fed.take(self.fed.len() - self.state.held.len())
    }

    /// Whether the run is true to the bytes: what was taken in is the frames
    /// of the events sent, in order, and behind them the bytes held; an
    /// error, if one was sent, is the last item, ends the sending, and says
    /// what the bytes held are.
    pub open spec fn faithful(self) -> bool {
        &&& self.state.held.len() <= self.fed.len()
        &&& self.fed == self.consumed() + self.state.held
        &&& whole_frames(self.consumed(), self.sent_before_error())
        &&& self.errored() ==> {
            &&& self.state.stage == Stage::Closing || self.state.stage == Stage::Stopped
            &&& match self.sent.last() {
                Err(Error::Protocol(e)) => parse_frame(self.state.held) == Parse::Invalid(e),
                Err(Error::Io(IoError::UnexpectedEof)) => parse_frame(self.state.held) is Incomplete,
                Err(Error::Io(IoError::Other(_))) => true,
                _ => false,
            }
        }
    }
}

proof fn whole_frames_grow<E>(
    bytes: Seq<u8>,
    items: Seq<Result<EventView, Error<E>>>,
    next: Seq<u8>,
)
    requires
        whole_frames(bytes, items),
        parse_frame(next) is Complete,
    ensures
        whole_frames(
            bytes + next.take(parse_frame(next)->len as int),
            items.push(Ok(parse_frame(next)->event)),
        ),
    decreases items.len(),
{
    let frame = next.take(parse_frame(next)->len as int);
    let event = Ok::<EventView, Error<E>>(parse_frame(next)->event);
    frame_alone(next);
    frame_lies_within(next);
    if items.len() == 0 {
        assert(bytes + frame =~= frame);
        assert(frame.skip(frame.len() as int) =~= Seq::<u8>::empty());
        assert(items.push(event).skip(1) =~= Seq::empty());
        assert(whole_frames(frame.skip(frame.len() as int), items.push(event).skip(1)));
    } else {
        let len = parse_frame(bytes)->len as int;
        frame_lies_within(bytes);
        decided_front_ignores_what_follows(bytes, frame);
        whole_frames_grow(bytes.skip(len), items.skip(1), next);
        assert((bytes + frame).skip(len) =~= bytes.skip(len) + frame);
        assert(items.push(event).skip(1) =~= items.skip(1).push(event));
    }
}

proof fn whole_frames_are_events<E>(
    bytes: Seq<u8>,
    items: Seq<Result<EventView, Error<E>>>,
    i: int,
)
    requires
        whole_frames(bytes, items),
        0 <= i < items.len(),
    ensures
        items[i] is Ok,
    decreases items.len(),
{
    if i > 0 {
        whole_frames_are_events(
            bytes.skip(parse_frame(bytes)->len as int),
            items.skip(1),
            i - 1,
        );
    }
}

proof fn proceeding_keeps_faith<E>(t: Trace<E>)
    requires
        t.faithful(),
    ensures
        ({
            let (state, action) = t.state.proceed::<E>();
            (Trace {
                state,
                fed: t.fed,
                sent: match action {
                    ActionView::Send(item) => t.sent.push(item),
                    _ => t.sent,
                },
            }).faithful()
        }),
{
    let (state, action) = t.state.proceed::<E>();
    let after = Trace {
        state,
        fed: t.fed,
        sent: match action {
            ActionView::Send(item) => t.sent.push(item),
            _ => t.sent,
        },
    };
    if t.state.stage == Stage::Open || t.state.stage == Stage::Draining {
        let held = t.state.held;
        match parse_frame(held) {
            Parse::Complete { event, len } => {
                frame_lies_within(held);
                whole_frames_grow(t.consumed(), t.sent, held);
                assert(after.consumed() =~= t.consumed() + held.take(len as int));
                assert(after.sent.drop_last() =~= t.sent);
                assert(after.fed =~= after.consumed() + after.state.held);
            },
            Parse::Invalid(e) => {
                assert(after.sent.drop_last() =~= t.sent);
            },
            Parse::Empty => {},
            Parse::Incomplete { missing } => {
                if t.state.stage == Stage::Draining {
                    assert(after.sent.drop_last() =~= t.sent);
                }
            },
        }
    }
}

/// One more report leaves a run true to the bytes.
pub proof fn step_keeps_faith<E>(t: Trace<E>, report: Report<E>)
    requires
        t.faithful(),
    ensures
        t.step(report).faithful(),
{
    if t.state.stage == Stage::Open || t.state.stage == Stage::Draining {
        match report {
            Report::Start => proceeding_keeps_faith(t),
            Report::Received(bytes) => {
                if t.state.stage == Stage::Open {
                    let fed = Trace {
                        state: BridgeView { stage: t.state.stage, held: t.state.held + bytes },
                        fed: t.fed + bytes,
                        sent: t.sent,
                    };
                    assert(fed.consumed() =~= t.consumed());
                    assert(fed.fed =~= fed.consumed() + fed.state.held);
                    proceeding_keeps_faith(fed);
                } else {
                    proceeding_keeps_faith(t);
                }
            },
            Report::EndOfStream => {
                proceeding_keeps_faith(
                    Trace { state: t.state.at(Stage::Draining), fed: t.fed, sent: t.sent },
                );
            },
            Report::ReadFailed(e) => {
                assert(t.step(report).sent.drop_last() =~= t.sent);
            },
            Report::Delivered(accepted) => {
                if accepted {
                    proceeding_keeps_faith(t);
                }
            },
        }
    }
}

/// Every run keeps true to the bytes, whatever the reports and their order.
pub proof fn run_keeps_faith<E>(t: Trace<E>, reports: Seq<Report<E>>)
    requires
        t.faithful(),
    ensures
        t.run(reports).faithful(),
    decreases reports.len(),
{
    if reports.len() > 0 {
        step_keeps_faith(t, reports[0]);
        run_keeps_faith(t.step(reports[0]), reports.skip(1));
    }
}

/// In every run from the beginning, the events sent are the events of the
/// frames taken in, one for one and in the order of their bytes: the bytes
/// taken in are the frames of those events and, behind them, the bytes still
/// held.
pub proof fn events_follow_the_bytes<E>(reports: Seq<Report<E>>)
    ensures
        Trace::<E>::begin().run(reports).faithful(),
{
    assert(Trace::<E>::begin().consumed() =~= Seq::<u8>::empty());
    assert(Trace::<E>::begin().fed =~= Trace::<E>::begin().consumed() + Seq::<u8>::empty());
    run_keeps_faith(Trace::<E>::begin(), reports);
}

/// In every run at most one error is sent, and nothing is sent behind it:
/// every item but the last is an event.
pub proof fn error_is_sent_once_and_last<E>(reports: Seq<Report<E>>, i: int)
    requires
        0 <= i < Trace::<E>::begin().run(reports).sent.len() - 1,
    ensures
        Trace::<E>::begin().run(reports).sent[i] is Ok,
{
    let t = Trace::<E>::begin().run(reports);
    events_follow_the_bytes(reports);
    whole_frames_are_events(t.consumed(), t.sent_before_error(), i);
}

/// Once an error has been sent, or the loop has stopped, every report is
/// answered with `Stop` and nothing more is sent.
pub proof fn nothing_follows_the_end<E>(t: Trace<E>, report: Report<E>)
    requires
        t.state.stage == Stage::Closing || t.state.stage == Stage::Stopped,
    ensures
        t.step(report).state.stage == Stage::Stopped,
        t.step(report).sent == t.sent,
        t.state.react(report).1 is Stop,
{
}

/// An output that ends on a frame boundary ends the run with no error:
/// the loop stops, and the events sent are those of all frames taken in.
pub proof fn clean_end_sends_every_frame<E>(t: Trace<E>)
    requires
        t.faithful(),
        t.state.stage == Stage::Open || t.state.stage == Stage::Draining,
        t.state.held.len() == 0,
    ensures
        t.state.react::<E>(Report::EndOfStream) == (
            t.state.at(Stage::Stopped),
            ActionView::<E>::Stop { terminate: false },
        ),
        t.step(Report::EndOfStream).sent == t.sent,
        whole_frames(t.fed, t.sent),
{
    assert(t.consumed() =~= t.fed);
}

/// An output that ends inside a frame, after its first byte, ends the run
/// with an I/O error, and no event is made of the cut frame.
pub proof fn cut_stream_ends_in_io_error<E>(state: BridgeView)
    requires
        state.stage == Stage::Open || state.stage == Stage::Draining,
        parse_frame(state.held) is Incomplete,
    ensures
        state.react::<E>(Report::EndOfStream) == (
            state.at(Stage::Closing),
            ActionView::<E>::Send(Err(Error::Io(IoError::UnexpectedEof))),
        ),
{
}

/// A frame that the end of the output cuts short, after its first byte and
/// before its last, is reported as an I/O error, whichever frame it is.
pub proof fn cut_frame_ends_in_io_error<E>(frame: Seq<u8>, k: int)
    requires
        parse_frame(frame) is Complete,
        0 < k < parse_frame(frame)->len,
    ensures
        (BridgeView { stage: Stage::Open, held: frame.take(k) }).react::<E>(Report::EndOfStream).1
            == ActionView::<E>::Send(Err(Error::Io(IoError::UnexpectedEof))),
{
    cut_frame_is_incomplete(frame, k);
}

/// A consumer that is gone stops the loop at once and has the helper asked
/// to terminate.
pub proof fn gone_consumer_stops_the_loop<E>(state: BridgeView)
    requires
        state.stage != Stage::Stopped,
    ensures
        state.react::<E>(Report::Delivered(false)) == (
            state.at(Stage::Stopped),
            ActionView::<E>::Stop { terminate: true },
        ),
{
}

/// A read is asked for only where bytes are missing, and for no more than
/// the field that is being read still lacks.
pub proof fn reads_ask_for_what_is_missing<E>(state: BridgeView, report: Report<E>)
    requires
        state.react(report).1 is Read,
    ensures
        state.react(report).0.stage == Stage::Open,
        ({
            let next = state.react(report).0;
            match parse_frame(next.held) {
                Parse::Empty => state.react(report).1 == ActionView::<E>::Read(2),
                Parse::Incomplete { missing } => state.react(report).1 == ActionView::<E>::Read(
                    missing,
                ) && 1 <= missing <= 0xffff,
                _ => false,
            }
        }),
{
    let next = state.react(report).0;
    let body = next.held.skip(2);
    if next.held.len() >= 2 && parse_path(body) is Ok {
        let n1 = parse_path(body)->Ok_0.1 as int;
        assert(body.skip(n1).len() == body.len() - n1);
    }
}

/// A host that reads no more than it is asked to never reads into the next
/// frame: when a frame is sent, no byte is left behind it.
pub proof fn reads_as_asked_leave_nothing_behind<E>(state: BridgeView, read: Seq<u8>)
    requires
        state.stage == Stage::Open,
        0 < read.len() <= parse_frame(state.held).wanted(),
    ensures
        state.react::<E>(Report::Received(read)).1 matches ActionView::Send(Ok(_))
            ==> state.react::<E>(Report::Received(read)).0.held.len() == 0,
{
    asked_bytes_stay_in_frame(state.held, read);
}

} // verus!
