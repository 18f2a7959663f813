//! The decode loop between the helper's output and the consumer's channel,
//! as a machine that the host drives: the host does what an action says and
//! reports what came of it.

use crate::decoder::Decoder;
use crate::error::{Error, IoError};
use crate::event::{Event, EventView};
use crate::frame::{Decoded, Parse, parse_frame};
use vstd::prelude::*;

verus! {

/// How far the loop has come.
#[derive(Clone, Copy, Debug, PartialEq, Eq, Structural)]
pub enum Stage {
    /// The output is being read.
    Open,
    /// The output has ended; the bytes held are still decoded.
    Draining,
    /// The one error of this run has been handed out.
    Closing,
    /// The loop is over.
    Stopped,
}

/// What the host is to do next.
#[derive(Debug, PartialEq, Eq)]
pub enum Action<E> {
    /// Read at least one and at most this many bytes of the helper's output.
    Read(usize),
    /// Put this item into the consumer's channel.
    Send(Result<Event, Error<E>>),
    /// Leave the loop, and first ask the helper to terminate where
    /// `terminate` is set.
    Stop { terminate: bool },
}

/// An action, with the event by its view.
pub enum ActionView<E> {
    Read(nat),
    Send(Result<EventView, Error<E>>),
    Stop { terminate: bool },
}

impl<E> View for Action<E> {
    type V = ActionView<E>;

    open spec fn view(&self) -> ActionView<E> {
        match *self {
            Action::Read(n) => ActionView::Read(n as nat),
            Action::Send(Ok(event)) => ActionView::Send(Ok(event@)),
            Action::Send(Err(e)) => ActionView::Send(Err(e)),
            Action::Stop { terminate } => ActionView::Stop { terminate },
        }
    }
}

/// What the host reports.
pub enum Report<E> {
    /// The run begins.
    Start,
    /// These bytes were read.
    Received(Seq<u8>),
    /// The output has ended: a read returned no byte.
    EndOfStream,
    /// A read failed.
    ReadFailed(E),
    /// An item was put into the channel (`true`), or the consumer is gone.
    Delivered(bool),
}

/// The state of a bridge: its stage and the bytes it holds.
pub struct BridgeView {
    pub stage: Stage,
    pub held: Seq<u8>,
}

impl BridgeView {
    /// The same bytes at another stage.
    pub open spec fn at(self, stage: Stage) -> BridgeView {
        BridgeView { stage, held: self.held }
    }

    /// The end of the loop. The helper is asked to terminate where the loop
    /// ends because the consumer is gone.
    pub open spec fn stop<E>(self, terminate: bool) -> (BridgeView, ActionView<E>) {
        (self.at(Stage::Stopped), ActionView::Stop { terminate })
    }

    /// The action that the bytes held call for. A whole frame is sent as its
    /// event. A violation is sent as the one error, and so is a frame that
    /// the end of the output cut short. Where bytes are missing they are
    /// read, or, once the output has ended on a frame boundary, the loop
    /// stops with nothing sent.
    pub open spec fn proceed<E>(self) -> (BridgeView, ActionView<E>) {
        match self.stage {
            Stage::Closing | Stage::Stopped => self.stop(false),
            Stage::Open | Stage::Draining => match parse_frame(self.held) {
                Parse::Complete { event, len } => (
                    BridgeView { stage: self.stage, held: self.held.skip(len as int) },
                    ActionView::Send(Ok(event)),
                ),
                Parse::Invalid(e) => (
                    self.at(Stage::Closing),
                    ActionView::Send(Err(Error::Protocol(e))),
                ),
                Parse::Empty => if self.stage == Stage::Open {
                    (self, ActionView::Read(2))
                } else {
                    self.stop(false)
                },
                Parse::Incomplete { missing } => if self.stage == Stage::Open {
                    (self, ActionView::Read(missing))
                } else {
                    (
                        self.at(Stage::Closing),
                        ActionView::Send(Err(Error::Io(IoError::UnexpectedEof))),
                    )
                },
            },
        }
    }

    /// The state and the action that follow a report. Once an error has been
    /// handed out or the loop has stopped, every report is answered with
    /// `Stop`. A consumer that is gone stops the loop and has the helper
    /// terminated, and a failed read is sent as the one error. Bytes reported
    /// after the end of the output are dropped.
    pub open spec fn react<E>(self, report: Report<E>) -> (BridgeView, ActionView<E>) {
        match self.stage {
            Stage::Stopped => self.stop(false),
            Stage::Closing => self.stop(report == Report::<E>::Delivered(false)),
            Stage::Open | Stage::Draining => match report {
                Report::Start => self.proceed(),
                Report::Received(bytes) => if self.stage == Stage::Open {
                    (BridgeView { stage: self.stage, held: self.held + bytes }).proceed()
                } else {
                    self.proceed()
                },
                Report::EndOfStream => self.at(Stage::Draining).proceed(),
                Report::ReadFailed(e) => (
                    self.at(Stage::Closing),
                    ActionView::Send(Err(Error::Io(IoError::Other(e)))),
                ),
                Report::Delivered(accepted) => if accepted {
                    self.proceed()
                } else {
                    self.stop(true)
                },
            },
        }
    }
}

/// The decode loop of one run.
pub struct Bridge {
    decoder: Decoder,
    stage: Stage,
}

impl View for Bridge {
    type V = BridgeView;

    closed spec fn view(&self) -> BridgeView {
        BridgeView { stage: self.stage, held: self.decoder@ }
    }
}

impl Bridge {
    /// A bridge at the start of a run: open, with no bytes held.
    pub fn new() -> (bridge: Bridge)
        ensures
            bridge@ == (BridgeView { stage: Stage::Open, held: Seq::<u8>::empty() }),
    {
        Bridge { decoder: Decoder::new(), stage: Stage::Open }
    }

    /// The stage that the loop is at.
    pub fn stage(&self) -> (stage: Stage)
        ensures
            stage == self@.stage,
    {
        self.stage
    }

    /// The first action of a run.
    pub fn start<E>(&mut self) -> (action: Action<E>)
        ensures
            (final(self)@, action@) == old(self)@.react::<E>(Report::Start),
    {
        self.proceed()
    }

    /// Does what the bytes held call for.
    fn proceed<E>(&mut self) -> (action: Action<E>)
        ensures
            (final(self)@, action@) == old(self)@.proceed::<E>(),
    {
        match self.stage {
            Stage::Closing | Stage::Stopped => {
                self.stage = Stage::Stopped;
                Action::Stop { terminate: false }
            },
            Stage::Open | Stage::Draining => match self.decoder.next_event() {
                Decoded::Complete { event, .. } => Action::Send(Ok(event)),
                Decoded::Invalid(e) => {
                    self.stage = Stage::Closing;
                    Action::Send(Err(Error::Protocol(e)))
                },
                Decoded::Empty => match self.stage {
                    Stage::Open => Action::Read(2),
                    _ => {
                        self.stage = Stage::Stopped;
                        Action::Stop { terminate: false }
                    },
                },
                Decoded::Incomplete { missing } => match self.stage {
                    Stage::Open => Action::Read(missing),
                    _ => {
                        self.stage = Stage::Closing;
                        Action::Send(Err(Error::Io(IoError::UnexpectedEof)))
                    },
                },
            },
        }
    }

    /// Takes in the bytes of a read and says what to do next.
    pub fn received<E>(&mut self, bytes: &[u8]) -> (action: Action<E>)
        ensures
            (final(self)@, action@) == old(self)@.react::<E>(Report::Received(bytes@)),
    {
        match self.stage {
            Stage::Open => {
                self.decoder.feed(bytes);
            },
            _ => {},
        }
        self.proceed()
    }

    /// Takes note that the output has ended and says what to do next.
    pub fn end_of_stream<E>(&mut self) -> (action: Action<E>)
        ensures
            (final(self)@, action@) == old(self)@.react::<E>(Report::EndOfStream),
    {
        match self.stage {
            Stage::Open => {
                self.stage = Stage::Draining;
            },
            _ => {},
        }
        self.proceed()
    }

    /// Takes the failure of a read and says what to do next.
    pub fn read_failed<E>(&mut self, error: E) -> (action: Action<E>)
        ensures
            (final(self)@, action@) == old(self)@.react::<E>(Report::ReadFailed(error)),
    {
        match self.stage {
            Stage::Closing | Stage::Stopped => {
                self.stage = Stage::Stopped;
                Action::Stop { terminate: false }
            },
            Stage::Open | Stage::Draining => {
                self.stage = Stage::Closing;
                Action::Send(Err(Error::Io(IoError::Other(error))))
            },
        }
    }

    /// Takes note of whether the consumer took the item that was sent and
    /// says what to do next.
    pub fn delivered<E>(&mut self, accepted: bool) -> (action: Action<E>)
        ensures
            (final(self)@, action@) == old(self)@.react::<E>(Report::Delivered(accepted)),
    {
        if accepted {
            self.proceed()
        } else {
            let terminate = match self.stage {
                Stage::Stopped => false,
                _ => true,
            };
            self.stage = Stage::Stopped;
            Action::Stop { terminate }
        }
    }
}

} // verus!
