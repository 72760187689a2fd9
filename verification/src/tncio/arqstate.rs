//! State of an ARQ connection

use vstd::prelude::*;

use bytes::Bytes;
use std::collections::VecDeque;
use std::io::Cursor;
use std::time::{Duration, Instant};

use crate::connectioninfo::ConnectionInfo;
use crate::error::{broken_pipe_err, connection_reset_err, TncError};
use crate::outside::{
    bytes_from_slice, cursor_copy_to_slice, cursor_has_remaining, cursor_new, cursor_remaining,
    duration_as_secs, instant_elapsed, instant_now, u64_div_rem,
};
use crate::protocol::response::ConnectionStateChange;
use crate::tncdata::DataIn;
use crate::tncio::arqmodel::{
    ArqModel, FlushInput, FlushStep, Poll, ReadInput, ReadStep, SourcePoll, WriteInput, WriteStep,
    SEND_HWM,
};
use crate::tncio::dataevent::DataEvent;

verus! {

const INITIAL_NUM_BUF: usize = 16;

/// State and buffers for an ARQ connection
///
/// This object holds receiving buffers and tracks the progress of transmitted
/// bytes on to their final destination, the remote peer. It holds none of the
/// I/O resources: a call that needs them returns a step that says what to
/// poll, and is called again with the reply.
pub struct ArqState {
    info: ConnectionInfo,
    rx_buffers: VecDeque<Cursor<Bytes>>,
    open_time: Instant,
    final_elapsed_time: Option<Duration>,
    closed_read: bool,
    closed_write: bool,
    bytecount_rx: u64,
    bytecount_tx: u64,
    bytecount_tx_staged: u64,
    bytecount_tx_unacknowledged: u64,
    last_reported_buffer: u64,
}

impl View for ArqState {
    type V = ArqModel;

    closed spec fn view(&self) -> ArqModel {
        ArqModel {
            info: self.info,
            unread: unread_bytes(self.rx_buffers@),
            closed_read: self.closed_read,
            closed_write: self.closed_write,
            received: self.bytecount_rx as nat,
            transmitted: self.bytecount_tx as nat,
            unacknowledged: self.bytecount_tx_unacknowledged as nat,
            staged: self.bytecount_tx_staged as nat,
            reported: self.last_reported_buffer as nat,
        }
    }
}

impl ArqState {
    /// When the connection was opened.
    pub closed spec fn open_time(&self) -> Instant {
        self.open_time
    }

    /// How long the connection was open, once it is closed.
    pub closed spec fn final_elapsed_time(&self) -> Option<Duration> {
        self.final_elapsed_time
    }

    /// What holds of every connection. It is closed from the moment on that
    /// the time for which it was open is known.
    pub open spec fn wf(&self) -> bool {
        &&& self@.wf()
        &&& self@.closed_read <==> self.final_elapsed_time() is Some
    }

    /// The connection was opened when `before` was. If `before` is closed, the
    /// time for which it was open stands; if the connection has been closed
    /// since, that time is what the clock showed to have elapsed from the
    /// opening on.
    pub open spec fn same_times(&self, before: &ArqState) -> bool {
        &&& self.open_time() == before.open_time()
        &&& match before.final_elapsed_time() {
            Some(_earlier) => self.final_elapsed_time() == before.final_elapsed_time(),
            None => self.final_elapsed_time() matches Some(elapsed) ==> call_ensures(
                crate::outside::instant_elapsed,
                (&before.open_time(),),
                elapsed,
            ),
        }
    }

    /// `elapsed` is the time for which the connection is or was open: as it
    /// stands once the connection is closed, and as the clock shows it before.
    pub open spec fn is_elapsed(&self, elapsed: Duration) -> bool {
        match self.final_elapsed_time() {
            Some(earlier) => elapsed == earlier,
            None => call_ensures(crate::outside::instant_elapsed, (&self.open_time(),), elapsed),
        }
    }

    /// New ARQ connection state
    ///
    /// # Parameters
    /// - `info`: Metadata about this connection, such as the source and
    ///   destination callsigns. The metadata is immutable and constant for the
    ///   duration of this `ArqState`.
    pub fn new(info: ConnectionInfo) -> (state: ArqState)
        ensures
            state.wf(),
            state@ == ArqModel::opened(info),
            state@.info == info,
            call_ensures(crate::outside::instant_now, (), state.open_time()),
    {
        ArqState {
            info,
            rx_buffers: VecDeque::with_capacity(INITIAL_NUM_BUF),
            open_time: instant_now(),
            final_elapsed_time: None,
            closed_read: false,
            closed_write: false,
            bytecount_rx: 0,
            bytecount_tx: 0,
            bytecount_tx_staged: 0,
            bytecount_tx_unacknowledged: 0,
            last_reported_buffer: 0,
        }
    }

    /// True if the connection was open (at last check)
    ///
    /// This method returns `true` if the connection was believed to be open
    /// during the last I/O operation conducted to the ARDOP TNC.
    ///
    /// Even if this value returns `true`, the connection may be detected as
    /// dead during the next read or write.
    pub fn is_open(&self) -> (open: bool)
        requires
            self.wf(),
        ensures
            open == !self@.closed_read,
            open == (self.final_elapsed_time() is None),
    {
        self.final_elapsed_time.is_none()
    }

    /// Return connection information
    ///
    /// Includes immutable details about the connection, such as the local and
    /// remote callsigns.
    pub fn info(&self) -> (info: &ConnectionInfo)
        ensures
            *info == self@.info,
    {
        &self.info
    }

    /// Returns total number of bytes received
    ///
    /// Counts the bytes that reads have returned, over the lifetime of the
    /// connection.
    pub fn bytes_received(&self) -> (count: u64)
        ensures
            count == self@.received,
    {
        self.bytecount_rx
    }

    /// Total number of bytes successfully transmitted
    ///
    /// Counts the total number of *payload* bytes which have been transmitted
    /// over the air *AND* acknowledged by the remote peer. This value is
    /// aggregated over the lifetime of the connection.
    pub fn bytes_transmitted(&self) -> (count: u64)
        ensures
            count == self@.transmitted,
    {
        self.bytecount_tx
    }

    /// Total number of bytes pending peer acknowledgement
    ///
    /// Counts the total number of bytes that have been accepted by the local
    /// ARDOP TNC but have not yet been delivered to the peer.
    pub fn bytes_unacknowledged(&self) -> (count: u64)
        ensures
            count == self@.unacknowledged,
    {
        self.bytecount_tx_unacknowledged
    }

    /// Bytes pending acceptance by the local TNC
    ///
    /// Counts the total number of bytes which have been accepted by this
    /// object internally but have not yet been delivered to the TNC for
    /// transmission.
    pub fn bytes_staged(&self) -> (count: u64)
        ensures
            count == self@.staged,
    {
        self.bytecount_tx_staged
    }

    /// Returns total time elapsed while the connection is/was open
    ///
    /// Returns the total time, in a monotonic reference frame, elapsed between
    /// 1. the connection being opened; and
    /// 2. the connection being closed
    ///
    /// If the connection is still open, then (2) is assumed to be `now`: what
    /// is returned then is what the clock shows to have elapsed.
    pub fn elapsed_time(&self) -> (elapsed: Duration)
        requires
            self.wf(),
        ensures
            self@.closed_read ==> Some(elapsed) == self.final_elapsed_time(),
            !self@.closed_read ==> call_ensures(
                crate::outside::instant_elapsed,
                (&self.open_time(),),
                elapsed,
            ),
            self.is_elapsed(elapsed),
    {
        match self.final_elapsed_time {
            Some(elapsed) => elapsed,
            None => instant_elapsed(&self.open_time),
        }
    }

    /// Mark this connection as closed for reading and writing
    ///
    /// Indicate that the disconnect process has concluded. No more data will
    /// be accepted for writing, and only data that has already been retrieved
    /// from the ARDOP TNC will be presented for reading.
    ///
    /// This method does not and cannot start a disconnect. Higher-level logic
    /// is responsible for this behavior.
    pub fn shutdown_read(&mut self)
        requires
            old(self).wf(),
        ensures
            final(self).wf(),
            final(self)@ == old(self)@.closed(),
            final(self).same_times(old(self)),
    {
        self.mark_closed();
    }

    /// Mark this connection as closed for writing
    ///
    /// Indicate that the *local* side has started the disconnect process. No
    /// more data will be accepted for writing, but there may still be unread
    /// (or even untransmitted) data remaining from the remote peer.
    ///
    /// This method does not and cannot start a disconnect. Higher-level logic
    /// is responsible for this behavior.
    pub fn shutdown_write(&mut self)
        requires
            old(self).wf(),
        ensures
            final(self).wf(),
            final(self)@ == old(self)@.closed_for_writing(),
            final(self).open_time() == old(self).open_time(),
            final(self).final_elapsed_time() == old(self).final_elapsed_time(),
    {
        self.closed_write = true;
    }

    /// Mark this connection as closed, `elapsed` after it was opened
    ///
    /// A connection that is closed already stays as it is: the time for which
    /// it was open does not change.
    pub fn mark_closed_after(&mut self, elapsed: Duration)
        requires
            old(self).wf(),
        ensures
            final(self).wf(),
            final(self)@ == old(self)@.closed(),
            final(self).open_time() == old(self).open_time(),
            final(self).final_elapsed_time() == (match old(self).final_elapsed_time() {
                Some(earlier) => Some(earlier),
                None => Some(elapsed),
            }),
    {
        self.closed_read = true;
        self.closed_write = true;
        if self.final_elapsed_time.is_none() {
            self.final_elapsed_time = Some(elapsed);
        }
    }

    // mark this connection as closed, now
    fn mark_closed(&mut self)
        requires
            old(self).wf(),
        ensures
            final(self).wf(),
            final(self)@ == old(self)@.closed(),
            final(self).same_times(old(self)),
    {
        let elapsed = instant_elapsed(&self.open_time);
        self.mark_closed_after(elapsed);
    }

    /// Processes a connection-relevant event
    pub fn handle_event(&mut self, event: ConnectionStateChange)
        requires
            old(self).wf(),
        ensures
            final(self).wf(),
            final(self)@ == old(self)@.after_event(event),
            final(self).same_times(old(self)),
    {
        match event {
            ConnectionStateChange::Closed => {
                self.mark_closed();
            },
            ConnectionStateChange::SendBuffer(newbuf) => {
                if newbuf < self.last_reported_buffer {
                    // bytes_ack bytes have been ACK'd by the peer
                    let bytes_ack: u64 = self.last_reported_buffer - newbuf;
                    let bytes_done: u64 = if bytes_ack < self.bytecount_tx_unacknowledged {
                        bytes_ack
                    } else {
                        self.bytecount_tx_unacknowledged
                    };
                    self.bytecount_tx_unacknowledged = self.bytecount_tx_unacknowledged
                        - bytes_done;
                    self.bytecount_tx = self.bytecount_tx + bytes_done;
                } else {
                    // the TNC has accepted what its buffer has gained
                    let bytes_new: u64 = newbuf - self.last_reported_buffer;
                    let bytes_accpt: u64 = if bytes_new < self.bytecount_tx_staged {
                        bytes_new
                    } else {
                        self.bytecount_tx_staged
                    };
                    self.bytecount_tx_unacknowledged = self.bytecount_tx_unacknowledged
                        + bytes_accpt;
                    self.bytecount_tx_staged = self.bytecount_tx_staged - bytes_accpt;
                }
                self.last_reported_buffer = newbuf;
            },
            ConnectionStateChange::Other => {},
        }
    }

    /// Processes the source's reply
    ///
    /// Appends data to the receive buffers and processes events. Returns
    /// `Poll::Ready` if there is something new for the caller. A caller that
    /// waits for data alone has to wait on after an event.
    pub fn poll_next_dataevent(&mut self, reply: SourcePoll, data_only: bool) -> (result: Poll<
        Result<(), TncError>,
    >)
        requires
            old(self).wf(),
        ensures
            final(self).wf(),
            final(self)@ == old(self)@.after_source(reply),
            final(self).same_times(old(self)),
            result == ArqModel::source_result(reply, data_only),
    {
        match reply {
            Poll::Pending => Poll::Pending,
            Poll::Ready(None) => {
                self.mark_closed();
                Poll::Ready(Err(connection_reset_err()))
            },
            Poll::Ready(Some(DataEvent::Event(event))) => {
                self.handle_event(event);
                if data_only {
                    Poll::Pending
                } else {
                    Poll::Ready(Ok(()))
                }
            },
            Poll::Ready(Some(DataEvent::Data(DataIn::FEC(_data)))) => {
                /* drop FEC data on the floor */
                assert(self@.unread + Seq::<u8>::empty() =~= self@.unread);
                Poll::Pending
            },
            Poll::Ready(Some(DataEvent::Data(DataIn::ARQ(data)))) => {
                // append fresh data to buffer set
                let ghost queue = self.rx_buffers@;
                let fresh = cursor_new(data);
                proof {
                    lemma_unread_push(queue, fresh);
                }
                self.rx_buffers.push_back(fresh);
                Poll::Ready(Ok(()))
            },
        }
    }

    // ends a read that has copied `total_read` bytes
    fn finish_read(&mut self, total_read: usize) -> (step: ReadStep)
        requires
            old(self).wf(),
            old(self)@.received + total_read <= u64::MAX,
        ensures
            final(self).wf(),
            (final(self)@, step) == old(self)@.read_end(total_read as nat),
            final(self).same_times(old(self)),
    {
        if total_read > 0 {
            self.bytecount_rx = self.bytecount_rx + total_read as u64;
            ReadStep::Return(Poll::Ready(Ok(total_read)))
        } else if self.closed_read {
            ReadStep::Return(Poll::Ready(Ok(0)))
        } else {
            ReadStep::Return(Poll::Pending)
        }
    }

    // continues a read with the receive buffers
    fn continue_read(&mut self, total_read: usize, buf: &mut [u8]) -> (step: ReadStep)
        requires
            old(self).wf(),
            total_read <= old(buf)@.len(),
            old(self)@.received + old(buf)@.len() <= u64::MAX,
        ensures
            final(self).wf(),
            final(self).same_times(old(self)),
            ({
                let turn = old(self)@.read_on(total_read as nat, old(buf)@.len());
                &&& final(self)@ == turn.model
                &&& step == turn.step
                &&& final(buf)@ == crate::tncio::arqmodel::overwritten(
                    old(buf)@,
                    total_read as int,
                    turn.copied,
                )
            }),
    {
        let room: usize = buf.len();
        let ghost before = buf@;
        let (_filled, rest) = buf.split_at_mut(total_read);
        let count: usize = read_from_buffers(&mut self.rx_buffers, rest);
        let total_read: usize = total_read + count;
        assert(buf@ =~= crate::tncio::arqmodel::overwritten(
            before,
            total_read - count,
            old(self)@.unread.take(count as int),
        ));
        assert(self@ == old(self)@.after_copy(count as nat));
        if total_read >= room || self.closed_read {
            // request satisfied using just the buffer,
            // or there is no more to read
            self.finish_read(total_read)
        } else {
            ReadStep::PollSource { total_read }
        }
    }

    /// Attempts to read bytes into `buf`
    ///
    /// Reads bytes from the following sources:
    /// 1. The internal buffers in this object.
    /// 2. If insufficient, the source of events.
    ///
    /// # Parameters
    /// - `total_read`: How many bytes this read has copied into `buf` so far:
    ///   none when it starts, then what the last step says
    /// - `input`: Whether the read starts, or what the source has replied
    /// - `buf`: Destination buffer for bytes, the same in all turns of a read
    ///
    /// # Return
    /// What to do next. A read returns a count of bytes copied into `buf`, or
    /// an error. Errors only occur if the connection to the local ARDOP TNC
    /// has been lost, and are of the kind `ConnectionReset`. A count of zero
    /// is the end of the stream.
    pub fn poll_read(&mut self, total_read: usize, input: ReadInput, buf: &mut [u8]) -> (step:
        ReadStep)
        requires
            old(self).wf(),
            total_read <= old(buf)@.len(),
            old(self)@.received + old(buf)@.len() <= u64::MAX,
        ensures
            final(self).wf(),
            final(self).same_times(old(self)),
            ({
                let turn = old(self)@.read_turn(total_read as nat, old(buf)@.len(), input);
                &&& final(self)@ == turn.model
                &&& step == turn.step
                &&& final(buf)@ == crate::tncio::arqmodel::overwritten(
                    old(buf)@,
                    total_read as int,
                    turn.copied,
                )
            }),
    {
        assert(buf@ =~= crate::tncio::arqmodel::overwritten(
            buf@,
            total_read as int,
            Seq::empty(),
        ));
        match input {
            ReadInput::Start => self.continue_read(total_read, buf),
            ReadInput::Source(reply) => match self.poll_next_dataevent(reply, true) {
                // no more yet
                Poll::Pending => self.finish_read(total_read),
                // lost connection to ARDOP
                Poll::Ready(Err(err)) => ReadStep::Return(Poll::Ready(Err(err))),
                // more
                Poll::Ready(Ok(())) => self.continue_read(total_read, buf),
            },
        }
    }

    // decides what a flush needs next
    fn continue_flush(&self) -> (step: FlushStep)
        requires
            self.wf(),
        ensures
            step == self@.flush_on(),
    {
        if self.closed_read {
            FlushStep::Return(Poll::Ready(Err(broken_pipe_err())))
        } else if self.bytecount_tx_unacknowledged + self.bytecount_tx_staged == 0 {
            // we are all flushed
            FlushStep::Return(Poll::Ready(Ok(())))
        } else if self.bytecount_tx_staged > 0 {
            // Try to flush some data out of TCP connection
            FlushStep::PollSink
        } else {
            // Try to update the tx byte counts
            FlushStep::PollSource
        }
    }

    /// Poll for data transmission to the peer to complete
    ///
    /// A flush does not succeed until all buffered data has been transmitted
    /// to the remote peer; it fails if the connection has failed or dropped.
    ///
    /// # Parameters
    /// - `input`: Whether the flush starts, or what the sink for outgoing data
    ///   or the source of events has replied
    ///
    /// # Return
    /// What to do next. Flushes of a closed ARQ connection raise a
    /// `BrokenPipe` error. Flushes over a broken local TNC connection raise a
    /// `ConnectionReset` error.
    pub fn poll_flush(&mut self, input: FlushInput) -> (step: FlushStep)
        requires
            old(self).wf(),
        ensures
            final(self).wf(),
            final(self).same_times(old(self)),
            (final(self)@, step) == old(self)@.flush_turn(input),
    {
        match input {
            FlushInput::Start => self.continue_flush(),
            FlushInput::Sink(Poll::Pending) => FlushStep::Return(Poll::Pending),
            FlushInput::Sink(Poll::Ready(Err(()))) => {
                FlushStep::Return(Poll::Ready(Err(connection_reset_err())))
            },
            FlushInput::Sink(Poll::Ready(Ok(()))) => FlushStep::PollSource,
            FlushInput::Source(reply) => match self.poll_next_dataevent(reply, false) {
                Poll::Pending => FlushStep::Return(Poll::Pending),
                Poll::Ready(Err(err)) => FlushStep::Return(Poll::Ready(Err(err))),
                Poll::Ready(Ok(())) => {
                    if self.bytecount_tx_unacknowledged + self.bytecount_tx_staged == 0 {
                        FlushStep::Return(Poll::Ready(Ok(())))
                    } else {
                        self.continue_flush()
                    }
                },
            },
        }
    }

    // continues a write whose flush asks for `step`
    fn continue_write(step: FlushStep) -> (next: WriteStep)
        ensures
            next@ == ArqModel::write_flush(step),
    {
        match step {
            FlushStep::PollSink => WriteStep::FlushSink,
            FlushStep::PollSource => WriteStep::FlushSource,
            FlushStep::Return(Poll::Ready(Ok(()))) => WriteStep::PollReady,
            FlushStep::Return(Poll::Ready(Err(err))) => WriteStep::Return(Poll::Ready(Err(err))),
            FlushStep::Return(Poll::Pending) => WriteStep::Return(Poll::Pending),
        }
    }

    /// Attempt to write bytes from `buf`
    ///
    /// Attempts to transmit the bytes in `buf` to the remote peer. If the
    /// number of buffered bytes exceeds the sending *high-water mark*, the
    /// write has to wait until they have been flushed. Errors will be raised
    /// if the connection is closed.
    ///
    /// Writes are always atomic. Either all of `buf` will be sent to the TNC
    /// for transmission, or none of `buf` will be sent to the TNC for
    /// transmission.
    ///
    /// # Parameters
    /// - `input`: Whether the write starts, or what the sink for outgoing data
    ///   or the source of events has replied
    /// - `buf`: Payload data to send, the same in all turns of a write
    ///
    /// # Return
    /// What to do next. Writes to a closed ARQ connection raise a `BrokenPipe`
    /// error. Writes to a broken local TNC connection raise a
    /// `ConnectionReset` error. A write that returns a count has accepted the
    /// entirety of `buf` for transmission.
    ///
    /// Note that this method does not guarantee that the bytes have been, or
    /// ever will be, delivered to the remote peer.
    pub fn poll_write(&mut self, input: WriteInput, buf: &[u8]) -> (step: WriteStep)
        requires
            old(self).wf(),
            input matches WriteInput::SinkSent(Ok(_)) ==> old(self)@.accepted() + buf@.len()
                <= u64::MAX,
        ensures
            final(self).wf(),
            final(self).same_times(old(self)),
            (final(self)@, step@) == old(self)@.write_turn(buf@, input),
            step matches WriteStep::StartSend(data) ==> crate::outside::bytes_contents(data)
                == buf@,
    {
        match input {
            WriteInput::Start => {
                if self.closed_write {
                    WriteStep::Return(Poll::Ready(Err(broken_pipe_err())))
                } else if self.bytecount_tx_unacknowledged + self.bytecount_tx_staged > SEND_HWM {
                    // Too much data queued. Try to flush. If we haven't
                    // flushed, then apply backpressure and don't accept any
                    // more bytes.
                    Self::continue_write(self.poll_flush(FlushInput::Start))
                } else {
                    // check if the outgoing framer is ready for more data
                    WriteStep::PollReady
                }
            },
            WriteInput::FlushSink(reply) => {
                Self::continue_write(self.poll_flush(FlushInput::Sink(reply)))
            },
            WriteInput::FlushSource(reply) => {
                Self::continue_write(self.poll_flush(FlushInput::Source(reply)))
            },
            WriteInput::SinkReady(Poll::Pending) => WriteStep::Return(Poll::Pending),
            WriteInput::SinkReady(Poll::Ready(Err(()))) => {
                WriteStep::Return(Poll::Ready(Err(connection_reset_err())))
            },
            WriteInput::SinkReady(Poll::Ready(Ok(()))) => {
                // enqueue the bytes for sending
                WriteStep::StartSend(bytes_from_slice(buf))
            },
            WriteInput::SinkSent(Err(())) => {
                WriteStep::Return(Poll::Ready(Err(connection_reset_err())))
            },
            WriteInput::SinkSent(Ok(())) => {
                self.bytecount_tx_staged = self.bytecount_tx_staged + buf.len() as u64;
                // try to flush the bytes out of the TCP connection
                WriteStep::PollFlush
            },
            WriteInput::SinkFlushed(Poll::Ready(Err(()))) => {
                WriteStep::Return(Poll::Ready(Err(connection_reset_err())))
            },
            WriteInput::SinkFlushed(_reply) => WriteStep::Return(Poll::Ready(Ok(buf.len()))),
        }
    }

    /// Figures for a status line, as of now
    pub fn current_status(&self) -> (status: ArqStatus)
        requires
            self.wf(),
        ensures
            status.open_mark@ == (if self@.closed_read {
                "="@
            } else {
                "+"@
            }),
            exists|elapsed: Duration| #[trigger]
                self.is_elapsed(elapsed) && status.minutes == crate::outside::duration_secs(elapsed)
                    / 60 && status.seconds == crate::outside::duration_secs(elapsed) % 60,
            status.bytes_received == self@.received,
            status.bytes_transmitted == self@.transmitted,
    {
        let elapsed = self.elapsed_time();
        self.status(duration_as_secs(&elapsed))
    }

    /// Figures for a status line
    ///
    /// # Parameters
    /// - `elapsed_secs`: For how many seconds the connection is or was open
    pub fn status(&self, elapsed_secs: u64) -> (status: ArqStatus)
        requires
            self.wf(),
        ensures
            status.open_mark@ == (if self@.closed_read {
                "="@
            } else {
                "+"@
            }),
            status.minutes == elapsed_secs / 60,
            status.seconds == elapsed_secs % 60,
            status.bytes_received == self@.received,
            status.bytes_transmitted == self@.transmitted,
    {
        let (minutes, seconds) = u64_div_rem(elapsed_secs, 60);
        ArqStatus {
            open_mark: if self.is_open() {
                "+"
            } else {
                "="
            },
            minutes,
            seconds,
            bytes_received: self.bytecount_rx,
            bytes_transmitted: self.bytecount_tx,
        }
    }
}

/// Figures for a status line of a connection.
#[derive(Debug, Clone, Copy)]
pub struct ArqStatus {
    /// `+` while the connection is open, `=` once it is closed.
    pub open_mark: &'static str,
    /// Full minutes for which the connection is or was open.
    pub minutes: u64,
    /// Seconds beyond those.
    pub seconds: u64,
    /// Bytes received.
    pub bytes_received: u64,
    /// Bytes transmitted and acknowledged.
    pub bytes_transmitted: u64,
}

/// A buffer that is queued last is read last.
proof fn lemma_unread_push(buffers: Seq<Cursor<Bytes>>, last: Cursor<Bytes>)
    ensures
        unread_bytes(buffers.push(last)) == unread_bytes(buffers) + crate::outside::cursor_unread(
            last,
        ),
    decreases buffers.len(),
{
    reveal_with_fuel(unread_bytes, 2);
    let pushed = buffers.push(last);
    if buffers.len() == 0 {
        assert(pushed.skip(1) =~= Seq::empty());
        assert(unread_bytes(pushed) =~= crate::outside::cursor_unread(last));
    } else {
        assert(pushed.skip(1) =~= buffers.skip(1).push(last));
        lemma_unread_push(buffers.skip(1), last);
        assert(unread_bytes(pushed) =~= unread_bytes(buffers) + crate::outside::cursor_unread(
            last,
        ));
    }
}

/// The unread bytes of a run of cursors, the first cursor's first.
pub open spec fn unread_bytes(buffers: Seq<Cursor<Bytes>>) -> Seq<u8>
    decreases buffers.len(),
{
    if buffers.len() == 0 {
        Seq::empty()
    } else {
        crate::outside::cursor_unread(buffers[0]) + unread_bytes(buffers.skip(1))
    }
}

/// The unread bytes of a run of buffers are those of each buffer, front to
/// back: of no buffer, none; of one, its own; of two runs, those of the first,
/// followed by those of the second.
pub proof fn law_unread_bytes_add_up(
    first: Seq<Cursor<Bytes>>,
    second: Seq<Cursor<Bytes>>,
    one: Cursor<Bytes>,
)
    ensures
        unread_bytes(Seq::empty()).len() == 0,
        unread_bytes(seq![one]) == crate::outside::cursor_unread(one),
        unread_bytes(first + second) == unread_bytes(first) + unread_bytes(second),
{
    let both = first + second;
    lemma_unread_push(Seq::empty(), one);
    assert(Seq::empty().push(one) =~= seq![one]);
    assert(unread_bytes(seq![one]) =~= crate::outside::cursor_unread(one));
    lemma_unread_split(both, first.len() as int);
    assert(both.take(first.len() as int) =~= first);
    assert(both.skip(first.len() as int) =~= second);
}

/// The unread bytes of a run of buffers are those of its first part, followed
/// by those of the rest.
proof fn lemma_unread_split(buffers: Seq<Cursor<Bytes>>, at: int)
    requires
        0 <= at <= buffers.len(),
    ensures
        unread_bytes(buffers) == unread_bytes(buffers.take(at)) + unread_bytes(buffers.skip(at)),
    decreases at,
{
    if at == 0 {
        assert(buffers.skip(0) =~= buffers);
        assert(unread_bytes(buffers) =~= unread_bytes(buffers.take(0)) + unread_bytes(
            buffers.skip(0),
        ));
    } else {
        lemma_unread_split(buffers.skip(1), at - 1);
        assert(buffers.take(at).skip(1) =~= buffers.skip(1).take(at - 1));
        assert(buffers.skip(1).skip(at - 1) =~= buffers.skip(at));
        assert(unread_bytes(buffers) =~= unread_bytes(buffers.take(at)) + unread_bytes(
            buffers.skip(at),
        ));
    }
}

/// Fills `dst` from the front of `buffers`
///
/// Moves as many unread bytes as there are, or as `dst` has room for, in the
/// order in which they stand in `buffers`. The rest of `dst` keeps what it
/// held. Buffers that have been read to their end are dropped along the way;
/// the one that the last byte came from stays at the front, even if it has
/// none left, where it has filled `dst`.
///
/// # Return
/// The number of bytes moved.
pub fn read_from_buffers(buffers: &mut VecDeque<Cursor<Bytes>>, dst: &mut [u8]) -> (count: usize)
    ensures
        count == crate::tncio::arqmodel::lesser(unread_bytes(old(buffers)@).len(), old(dst)@.len()),
        final(dst)@ == crate::tncio::arqmodel::overwritten(
            old(dst)@,
            0,
            unread_bytes(old(buffers)@).take(count as int),
        ),
        unread_bytes(final(buffers)@) == unread_bytes(old(buffers)@).skip(count as int),
        count <= old(dst)@.len(),
        final(dst)@.len() == old(dst)@.len(),
        final(dst)@.take(count as int) + unread_bytes(final(buffers)@) == unread_bytes(
            old(buffers)@,
        ),
        final(dst)@.skip(count as int) == old(dst)@.skip(count as int),
        count < old(dst)@.len() ==> final(buffers)@.len() == 0,
        old(dst)@.len() == 0 ==> final(buffers)@ == old(buffers)@,
        0 < count == old(dst)@.len() ==> ({
            let dropped = old(buffers)@.len() - final(buffers)@.len();
            &&& 0 <= dropped < old(buffers)@.len()
            &&& final(buffers)@.skip(1) == old(buffers)@.skip(dropped + 1)
            &&& unread_bytes(old(buffers)@.take(dropped)).len() < count
        }),
{
    let ghost queue = buffers@;
    let ghost all = unread_bytes(queue);
    let ghost before = dst@;
    let mut total_read: usize = 0;
    proof {
        assert(dst@ =~= crate::tncio::arqmodel::overwritten(before, 0, all.take(0)));
        assert(all =~= all.skip(0));
        assert(queue.take(0).len() == 0);
    }
    while buffers.len() > 0 && total_read < dst.len()
        invariant
            all == unread_bytes(queue),
            total_read <= dst@.len() == before.len(),
            total_read <= all.len(),
            dst@ == crate::tncio::arqmodel::overwritten(before, 0, all.take(total_read as int)),
            unread_bytes(buffers@) == all.skip(total_read as int),
            before.len() == 0 ==> buffers@ == queue,
            buffers@.len() <= queue.len(),
            buffers@.len() > 0 ==> buffers@.skip(1) == queue.skip(
                queue.len() - buffers@.len() + 1,
            ),
            unread_bytes(queue.take(queue.len() - buffers@.len())).len() <= total_read,
            0 < total_read == before.len() ==> buffers@.len() > 0 && unread_bytes(
                queue.take(queue.len() - buffers@.len()),
            ).len() < total_read,
        decreases unread_bytes(buffers@).len(), buffers@.len(),
    {
        let ghost waiting = buffers@;
        let ghost dropped = queue.len() - waiting.len();
        if let Some(mut head) = buffers.pop_front() {
            let ghost head_unread = crate::outside::cursor_unread(head);
            assert(buffers@ =~= waiting.skip(1));
            assert(buffers@ == queue.skip(dropped + 1));
            if !cursor_has_remaining(&head) {
                // this buffer is empty. next.
                proof {
                    assert(unread_bytes(waiting) =~= unread_bytes(buffers@));
                    lemma_unread_split(queue, dropped + 1);
                    if buffers@.len() > 0 {
                        assert(buffers@.skip(1) =~= queue.skip(dropped + 2));
                    }
                }
                continue;
            }
            let room: usize = dst.len() - total_read;
            let remaining: usize = cursor_remaining(&head);
            let num_out: usize = if remaining < room { remaining } else { room };
            let (_filled, rest) = dst.split_at_mut(total_read);
            let (chunk, _rest) = rest.split_at_mut(num_out);
            cursor_copy_to_slice(&mut head, chunk);
            buffers.push_front(head);
            proof {
                let tail = unread_bytes(waiting.skip(1));
                let start = total_read as int;
                let end = start + num_out;
                assert(all.skip(start) == head_unread + tail);
                assert(buffers@[0] == head);
                assert(buffers@.skip(1) =~= waiting.skip(1));
                assert(unread_bytes(buffers@) == head_unread.skip(num_out as int) + tail);
                assert(all.skip(end) =~= all.skip(start).skip(num_out as int));
                assert(unread_bytes(buffers@) =~= all.skip(end));
                assert(head_unread.take(num_out as int) =~= all.subrange(start, end));
                assert(dst@ =~= crate::tncio::arqmodel::overwritten(before, 0, all.take(end)));
            }
            total_read = total_read + num_out;
        }
    }
    proof {
        let count = total_read as int;
        assert(dst@.take(count) =~= all.take(count));
        assert(all.take(count) + all.skip(count) =~= all);
        assert(dst@.skip(count) =~= before.skip(count));
    }
    total_read
}

} // verus!
