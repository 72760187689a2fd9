//! What an ARQ connection is, and what each call makes of it
//!
//! A connection does no I/O of its own. A call of
//! [`ArqState`](crate::tncio::arqstate::ArqState) that needs the connection
//! to the TNC returns a *step* that says what to poll, and is called again
//! with the *reply*. Such a pair of a call and its step is a *turn*. The
//! types of this module are the vocabulary of those turns; the spec functions
//! say what every turn does.

use vstd::prelude::*;

use bytes::Bytes;

use crate::connectioninfo::ConnectionInfo;
use crate::error::TncError;
use crate::protocol::response::ConnectionStateChange;
use crate::tncdata::DataIn;
use crate::tncio::dataevent::DataEvent;

verus! {

/// Most bytes that may be staged or unacknowledged for another write to be
/// accepted right away: the sending *high-water mark*.
pub const SEND_HWM: u64 = 65535;

/// Whether something has come to pass.
#[derive(Debug)]
pub enum Poll<T> {
    /// It has, with this value.
    Ready(T),
    /// Not yet.
    Pending,
}

/// Reply of the source of events: the next event, or `None` where the
/// connection to the TNC is gone.
pub type SourcePoll = Poll<Option<DataEvent>>;

/// Reply of the sink for outgoing data, whose errors are all alike.
pub type SinkPoll = Poll<Result<(), ()>>;

/// What a read is called with.
#[derive(Debug)]
pub enum ReadInput {
    /// The read begins.
    Start,
    /// The source has replied.
    Source(SourcePoll),
}

/// What a read asks for.
#[derive(Debug)]
pub enum ReadStep {
    /// Poll the source, then call again.
    PollSource {
        /// How many bytes have been copied so far.
        total_read: usize,
    },
    /// The read is over.
    Return(Poll<Result<usize, TncError>>),
}

/// What a flush is called with.
#[derive(Debug)]
pub enum FlushInput {
    /// The flush begins.
    Start,
    /// The sink has replied to a flush.
    Sink(SinkPoll),
    /// The source has replied.
    Source(SourcePoll),
}

/// What a flush asks for.
#[derive(Debug)]
pub enum FlushStep {
    /// Flush the sink, then call again.
    PollSink,
    /// Poll the source, then call again.
    PollSource,
    /// The flush is over.
    Return(Poll<Result<(), TncError>>),
}

/// What a write is called with.
#[derive(Debug)]
pub enum WriteInput {
    /// The write begins.
    Start,
    /// The sink has replied to a flush that makes room for the write.
    FlushSink(SinkPoll),
    /// The source has replied.
    FlushSource(SourcePoll),
    /// The sink has said whether it takes more data.
    SinkReady(SinkPoll),
    /// The sink has taken, or refused, the data.
    SinkSent(Result<(), ()>),
    /// The sink has replied to the flush that follows the data.
    SinkFlushed(SinkPoll),
}

/// What a write asks for.
#[derive(Debug)]
pub enum WriteStep {
    /// Flush the sink to make room for the write, then call again.
    FlushSink,
    /// Poll the source, then call again.
    FlushSource,
    /// Ask the sink whether it takes more data, then call again.
    PollReady,
    /// Hand this data to the sink, then call again.
    StartSend(Bytes),
    /// Flush the sink once the data is in it, then call again.
    PollFlush,
    /// The write is over.
    Return(Poll<Result<usize, TncError>>),
}

/// A [`WriteStep`], with the bytes that it hands to the sink.
pub enum WriteAction {
    FlushSink,
    FlushSource,
    PollReady,
    StartSend(Seq<u8>),
    PollFlush,
    Return(Poll<Result<usize, TncError>>),
}

impl View for WriteStep {
    type V = WriteAction;

    open spec fn view(&self) -> WriteAction {
        match *self {
            WriteStep::FlushSink => WriteAction::FlushSink,
            WriteStep::FlushSource => WriteAction::FlushSource,
            WriteStep::PollReady => WriteAction::PollReady,
            WriteStep::StartSend(data) => WriteAction::StartSend(
                crate::outside::bytes_contents(data),
            ),
            WriteStep::PollFlush => WriteAction::PollFlush,
            WriteStep::Return(result) => WriteAction::Return(result),
        }
    }
}

/// The lesser of two counts.
pub open spec fn lesser(a: nat, b: nat) -> nat {
    if a <= b {
        a
    } else {
        b
    }
}

/// `buf` with `data` written over it from index `at` on.
pub open spec fn overwritten(buf: Seq<u8>, at: int, data: Seq<u8>) -> Seq<u8> {
    buf.take(at) + data + buf.skip(at + data.len())
}

/// The bytes of the connection that arrive with a reply of the source.
pub open spec fn payload(reply: SourcePoll) -> Seq<u8> {
    match reply {
        Poll::Ready(Some(event)) => event.payload(),
        _ => Seq::empty(),
    }
}

/// An ARQ connection, but for the clock.
///
/// A byte that is written is *staged* until the TNC takes it, then
/// *unacknowledged* until the peer has it, and *transmitted* from then on.
pub struct ArqModel {
    /// Metadata of the connection.
    pub info: ConnectionInfo,
    /// Bytes from the peer that nobody has read yet, in the order of arrival.
    pub unread: Seq<u8>,
    /// No more bytes will arrive.
    pub closed_read: bool,
    /// No more bytes will be taken for writing.
    pub closed_write: bool,
    /// Bytes handed to readers.
    pub received: nat,
    /// Bytes that the peer has acknowledged.
    pub transmitted: nat,
    /// Bytes that the TNC has taken and the peer has not acknowledged.
    pub unacknowledged: nat,
    /// Bytes that the TNC has not taken yet.
    pub staged: nat,
    /// Size of its buffer, as the TNC last reported it.
    pub reported: nat,
}

/// What a turn of a read makes of a connection.
pub struct ReadTurn {
    /// The connection after the turn.
    pub model: ArqModel,
    /// The bytes that the turn adds to the reader's buffer.
    pub copied: Seq<u8>,
    /// What the turn asks for.
    pub step: ReadStep,
}

impl ArqModel {
    /// A connection that has just been opened.
    pub open spec fn opened(info: ConnectionInfo) -> ArqModel {
        ArqModel {
            info,
            unread: Seq::empty(),
            closed_read: false,
            closed_write: false,
            received: 0,
            transmitted: 0,
            unacknowledged: 0,
            staged: 0,
            reported: 0,
        }
    }

    /// The bytes written that have not reached the peer.
    pub open spec fn outstanding(self) -> nat {
        self.unacknowledged + self.staged
    }

    /// All bytes ever written.
    pub open spec fn accepted(self) -> nat {
        self.transmitted + self.unacknowledged + self.staged
    }

    /// What holds of every connection: the byte counts can be counted, no
    /// more bytes await acknowledgement than the TNC holds, and a connection
    /// that is closed is closed both ways.
    pub open spec fn wf(self) -> bool {
        &&& self.received <= u64::MAX
        &&& self.accepted() <= u64::MAX
        &&& self.unacknowledged <= self.reported <= u64::MAX
        &&& self.closed_read ==> self.closed_write
    }

    /// The connection once it is closed for reading and writing.
    pub open spec fn closed(self) -> ArqModel {
        ArqModel { closed_read: true, closed_write: true, ..self }
    }

    /// The connection once it is closed for writing.
    pub open spec fn closed_for_writing(self) -> ArqModel {
        ArqModel { closed_write: true, ..self }
    }

    /// The connection once the TNC has reported the size of its buffer. What
    /// the buffer has lost is acknowledged, what it has gained was staged.
    pub open spec fn reported_buffer(self, size: nat) -> ArqModel {
        if size < self.reported {
            let acknowledged = lesser((self.reported - size) as nat, self.unacknowledged);
            ArqModel {
                unacknowledged: (self.unacknowledged - acknowledged) as nat,
                transmitted: self.transmitted + acknowledged,
                reported: size,
                ..self
            }
        } else {
            let taken = lesser(self.staged, (size - self.reported) as nat);
            ArqModel {
                staged: (self.staged - taken) as nat,
                unacknowledged: self.unacknowledged + taken,
                reported: size,
                ..self
            }
        }
    }

    /// The connection after an event.
    pub open spec fn after_event(self, event: ConnectionStateChange) -> ArqModel {
        match event {
            ConnectionStateChange::Closed => self.closed(),
            ConnectionStateChange::SendBuffer(size) => self.reported_buffer(size as nat),
            ConnectionStateChange::Other => self,
        }
    }

    /// The connection after a reply of the source.
    pub open spec fn after_source(self, reply: SourcePoll) -> ArqModel {
        match reply {
            Poll::Pending => self,
            Poll::Ready(None) => self.closed(),
            Poll::Ready(Some(DataEvent::Event(event))) => self.after_event(event),
            Poll::Ready(Some(DataEvent::Data(data))) => ArqModel {
                unread: self.unread + DataEvent::Data(data).payload(),
                ..self
            },
        }
    }

    /// What a reply of the source tells the call that has waited for it. A
    /// call that waits for data alone has to wait on after an event.
    pub open spec fn source_result(reply: SourcePoll, data_only: bool) -> Poll<
        Result<(), TncError>,
    > {
        match reply {
            Poll::Pending => Poll::Pending,
            Poll::Ready(None) => Poll::Ready(Err(TncError::connection_reset())),
            Poll::Ready(Some(DataEvent::Event(_event))) => if data_only {
                Poll::Pending
            } else {
                Poll::Ready(Ok(()))
            },
            Poll::Ready(Some(DataEvent::Data(DataIn::FEC(_data)))) => Poll::Pending,
            Poll::Ready(Some(DataEvent::Data(DataIn::ARQ(_data)))) => Poll::Ready(Ok(())),
        }
    }

    /// The connection once the first `count` unread bytes are read.
    pub open spec fn after_copy(self, count: nat) -> ArqModel {
        ArqModel { unread: self.unread.skip(count as int), ..self }
    }

    /// The end of a read that has copied `total` bytes: they are received. A
    /// read that has copied none waits on, or meets the end of the stream.
    pub open spec fn read_end(self, total: nat) -> (ArqModel, ReadStep) {
        if total > 0 {
            (
                ArqModel { received: self.received + total, ..self },
                ReadStep::Return(Poll::Ready(Ok(total as usize))),
            )
        } else if self.closed_read {
            (self, ReadStep::Return(Poll::Ready(Ok(0))))
        } else {
            (self, ReadStep::Return(Poll::Pending))
        }
    }

    /// A read that has copied `total` bytes into a buffer of `room` bytes
    /// goes on with what is unread. It ends with a full buffer, or with the
    /// end of the stream.
    pub open spec fn read_on(self, total: nat, room: nat) -> ReadTurn {
        let count = lesser(self.unread.len(), (room - total) as nat);
        let copied = self.unread.take(count as int);
        if total + count >= room || self.closed_read {
            let (model, step) = self.after_copy(count).read_end(total + count);
            ReadTurn { model, copied, step }
        } else {
            ReadTurn {
                model: self.after_copy(count),
                copied,
                step: ReadStep::PollSource { total_read: (total + count) as usize },
            }
        }
    }

    /// A turn of a read that has copied `total` bytes into a buffer of `room`
    /// bytes.
    pub open spec fn read_turn(self, total: nat, room: nat, input: ReadInput) -> ReadTurn {
        match input {
            ReadInput::Start => self.read_on(total, room),
            ReadInput::Source(reply) => {
                let next = self.after_source(reply);
                match Self::source_result(reply, true) {
                    Poll::Ready(Ok(())) => next.read_on(total, room),
                    Poll::Ready(Err(err)) => ReadTurn {
                        model: next,
                        copied: Seq::empty(),
                        step: ReadStep::Return(Poll::Ready(Err(err))),
                    },
                    Poll::Pending => {
                        let (model, step) = next.read_end(total);
                        ReadTurn { model, copied: Seq::empty(), step }
                    },
                }
            },
        }
    }

    /// What a flush asks for next.
    pub open spec fn flush_on(self) -> FlushStep {
        if self.closed_read {
            FlushStep::Return(Poll::Ready(Err(TncError::broken_pipe())))
        } else if self.outstanding() == 0 {
            FlushStep::Return(Poll::Ready(Ok(())))
        } else if self.staged > 0 {
            FlushStep::PollSink
        } else {
            FlushStep::PollSource
        }
    }

    /// A turn of a flush.
    pub open spec fn flush_turn(self, input: FlushInput) -> (ArqModel, FlushStep) {
        match input {
            FlushInput::Start => (self, self.flush_on()),
            FlushInput::Sink(reply) => (
                self,
                match reply {
                    Poll::Ready(Ok(())) => FlushStep::PollSource,
                    Poll::Ready(Err(())) => FlushStep::Return(
                        Poll::Ready(Err(TncError::connection_reset())),
                    ),
                    Poll::Pending => FlushStep::Return(Poll::Pending),
                },
            ),
            FlushInput::Source(reply) => {
                let next = self.after_source(reply);
                (
                    next,
                    match Self::source_result(reply, false) {
                        Poll::Ready(Ok(())) => if next.outstanding() == 0 {
                            FlushStep::Return(Poll::Ready(Ok(())))
                        } else {
                            next.flush_on()
                        },
                        Poll::Ready(Err(err)) => FlushStep::Return(Poll::Ready(Err(err))),
                        Poll::Pending => FlushStep::Return(Poll::Pending),
                    },
                )
            },
        }
    }

    /// What a write asks for where its flush asks for `step`.
    pub open spec fn write_flush(step: FlushStep) -> WriteAction {
        match step {
            FlushStep::PollSink => WriteAction::FlushSink,
            FlushStep::PollSource => WriteAction::FlushSource,
            FlushStep::Return(Poll::Ready(Ok(()))) => WriteAction::PollReady,
            FlushStep::Return(Poll::Ready(Err(err))) => WriteAction::Return(Poll::Ready(Err(err))),
            FlushStep::Return(Poll::Pending) => WriteAction::Return(Poll::Pending),
        }
    }

    /// A turn of a write of `data`.
    pub open spec fn write_turn(self, data: Seq<u8>, input: WriteInput) -> (
        ArqModel,
        WriteAction,
    ) {
        match input {
            WriteInput::Start => (
                self,
                if self.closed_write {
                    WriteAction::Return(Poll::Ready(Err(TncError::broken_pipe())))
                } else if self.outstanding() > SEND_HWM {
                    Self::write_flush(self.flush_on())
                } else {
                    WriteAction::PollReady
                },
            ),
            WriteInput::FlushSink(reply) => {
                let (next, step) = self.flush_turn(FlushInput::Sink(reply));
                (next, Self::write_flush(step))
            },
            WriteInput::FlushSource(reply) => {
                let (next, step) = self.flush_turn(FlushInput::Source(reply));
                (next, Self::write_flush(step))
            },
            WriteInput::SinkReady(reply) => (
                self,
                match reply {
                    Poll::Ready(Ok(())) => WriteAction::StartSend(data),
                    Poll::Ready(Err(())) => WriteAction::Return(
                        Poll::Ready(Err(TncError::connection_reset())),
                    ),
                    Poll::Pending => WriteAction::Return(Poll::Pending),
                },
            ),
            WriteInput::SinkSent(Ok(())) => (
                ArqModel { staged: self.staged + data.len(), ..self },
                WriteAction::PollFlush,
            ),
            WriteInput::SinkSent(Err(())) => (
                self,
                WriteAction::Return(Poll::Ready(Err(TncError::connection_reset()))),
            ),
            WriteInput::SinkFlushed(reply) => (
                self,
                match reply {
                    Poll::Ready(Err(())) => WriteAction::Return(
                        Poll::Ready(Err(TncError::connection_reset())),
                    ),
                    _ => WriteAction::Return(Poll::Ready(Ok(data.len() as usize))),
                },
            ),
        }
    }
}

} // verus!
