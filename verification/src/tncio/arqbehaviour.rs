//! What the calls of a connection are for
//!
//! Each law here starts from a result and says where it comes about, and where
//! it does not: which reply makes a call wait, what makes it fail, when it has
//! to go on asking, where bytes go. The laws speak of the counts, of the bytes
//! and of the replies themselves.

use vstd::prelude::*;

use bytes::Bytes;

use crate::connectioninfo::ConnectionInfo;
use crate::error::ErrorKind;
use crate::protocol::response::ConnectionStateChange;
use crate::tncdata::DataIn;
use crate::tncio::arqmodel::{
    ArqModel, FlushInput, FlushStep, Poll, ReadInput, ReadStep, SourcePoll, WriteAction, WriteInput,
    WriteStep,
};
use crate::tncio::arqstate::ArqState;
use crate::tncio::dataevent::DataEvent;

verus! {

/// A reply that holds nothing for anybody: there is no news yet, or a
/// broadcast, which belongs to no connection.
pub open spec fn idle(reply: SourcePoll) -> bool {
    ||| reply matches Poll::Pending
    ||| reply matches Poll::Ready(Some(DataEvent::Data(DataIn::FEC(_))))
}

/// A reply that brings data of the connection.
pub open spec fn brings_data(reply: SourcePoll) -> bool {
    reply matches Poll::Ready(Some(DataEvent::Data(DataIn::ARQ(_))))
}

/// A reply that brings an event of the connection.
pub open spec fn brings_event(reply: SourcePoll) -> bool {
    reply matches Poll::Ready(Some(DataEvent::Event(_)))
}

/// A reply that says that the TNC is gone.
pub open spec fn ends(reply: SourcePoll) -> bool {
    reply matches Poll::Ready(None)
}

// ---------------------------------------------------------------------------
// Reports of the TNC's buffer
// ---------------------------------------------------------------------------

/// When the TNC's buffer grows, as many bytes leave the staged ones as it has
/// grown by, or all of them if they are fewer. They await acknowledgement from
/// then on. Nothing is transmitted, and nothing else changes.
pub proof fn law_growth_takes_staged_bytes(model: ArqModel, size: u64)
    requires
        size >= model.reported,
    ensures
        ({
            let next = model.after_event(ConnectionStateChange::SendBuffer(size));
            let growth = size - model.reported;
            &&& growth <= model.staged ==> model.staged - next.staged == growth
            &&& growth >= model.staged ==> next.staged == 0
            &&& next.unacknowledged - model.unacknowledged == model.staged - next.staged
            &&& next.transmitted == model.transmitted
            &&& next.reported == size
            &&& next == (ArqModel {
                staged: next.staged,
                unacknowledged: next.unacknowledged,
                reported: next.reported,
                ..model
            })
        }),
{
}

/// When the TNC's buffer shrinks, as many bytes are acknowledged as it has
/// shrunk by, or all that await it if they are fewer. They are transmitted
/// from then on. Nothing leaves the staged ones, and nothing else changes.
pub proof fn law_shrinkage_acknowledges_bytes(model: ArqModel, size: u64)
    requires
        size <= model.reported,
    ensures
        ({
            let next = model.after_event(ConnectionStateChange::SendBuffer(size));
            let loss = model.reported - size;
            &&& loss <= model.unacknowledged ==> model.unacknowledged - next.unacknowledged == loss
            &&& loss >= model.unacknowledged ==> next.unacknowledged == 0
            &&& next.transmitted - model.transmitted == model.unacknowledged - next.unacknowledged
            &&& next.staged == model.staged
            &&& next.reported == size
            &&& next == (ArqModel {
                unacknowledged: next.unacknowledged,
                transmitted: next.transmitted,
                reported: next.reported,
                ..model
            })
        }),
{
}

/// While the TNC holds nothing but bytes of this connection, the bytes that
/// await acknowledgement are those that it reports to hold.
pub proof fn law_unacknowledged_follows_the_report(model: ArqModel, size: u64)
    requires
        model.unacknowledged == model.reported,
        size <= model.reported + model.staged,
    ensures
        model.after_event(ConnectionStateChange::SendBuffer(size)).unacknowledged == size,
        model.after_event(ConnectionStateChange::SendBuffer(size)).transmitted + size
            + model.after_event(ConnectionStateChange::SendBuffer(size)).staged
            == model.transmitted + model.unacknowledged + model.staged,
{
}

/// A round trip: what the TNC takes and gives up again is transmitted, byte
/// for byte, whatever has been transmitted before.
pub proof fn law_taken_and_delivered(model: ArqModel, up: u64, down: u64)
    requires
        model.unacknowledged == model.reported,
        model.reported <= up <= model.reported + model.staged,
        down <= up,
    ensures
        ({
            let next = model.after_event(ConnectionStateChange::SendBuffer(up)).after_event(
                ConnectionStateChange::SendBuffer(down),
            );
            &&& next.staged == model.staged - (up - model.reported)
            &&& next.unacknowledged == down
            &&& next.transmitted == model.transmitted + (up - down)
        }),
{
}

/// The size of the buffer alone, without the event that reports it, comes to
/// the same.
pub proof fn law_report_is_an_event(model: ArqModel, size: u64)
    ensures
        model.reported_buffer(size as nat) == model.after_event(
            ConnectionStateChange::SendBuffer(size),
        ),
{
}

// ---------------------------------------------------------------------------
// Replies of the source
// ---------------------------------------------------------------------------

/// What each reply of the source does to a connection: data of the connection
/// is unread behind what was unread before, an event has its effect, the loss
/// of the TNC closes the connection, and a reply that holds nothing changes
/// nothing.
pub proof fn law_source_replies(
    model: ArqModel,
    reply: SourcePoll,
    event: ConnectionStateChange,
    data: Bytes,
)
    ensures
        idle(reply) ==> model.after_source(reply) == model,
        ends(reply) ==> {
            let next = model.after_source(reply);
            &&& next.closed_read && next.closed_write
            &&& next == (ArqModel {
                closed_read: next.closed_read,
                closed_write: next.closed_write,
                ..model
            })
        },
        model.after_source(Poll::Ready(Some(DataEvent::Event(event)))) == model.after_event(event),
        ({
            let next = model.after_source(Poll::Ready(Some(DataEvent::Data(DataIn::ARQ(data)))));
            &&& next.unread == model.unread + crate::outside::bytes_contents(data)
            &&& next == (ArqModel { unread: next.unread, ..model })
        }),
        ({
            let next = model.after_event(ConnectionStateChange::Closed);
            &&& next.closed_read && next.closed_write
            &&& next == (ArqModel {
                closed_read: next.closed_read,
                closed_write: next.closed_write,
                ..model
            })
        }),
        model.after_event(ConnectionStateChange::Other) == model,
{
    assert(model.unread + Seq::<u8>::empty() =~= model.unread);
}

/// What arrives with a reply is the data of the connection that it brings, all
/// of it and nothing else.
pub proof fn law_what_arrives(reply: SourcePoll, data: Bytes)
    ensures
        crate::tncio::arqmodel::payload(Poll::Ready(Some(DataEvent::Data(DataIn::ARQ(data)))))
            == crate::outside::bytes_contents(data),
        !brings_data(reply) ==> crate::tncio::arqmodel::payload(reply).len() == 0,
{
}

/// A call goes on with new data, and, unless it waits for data alone, after an
/// event. It fails where the TNC is gone. Otherwise it has to wait.
pub proof fn law_what_a_reply_tells(reply: SourcePoll, data_only: bool)
    ensures
        (ArqModel::source_result(reply, data_only) matches Poll::Ready(Ok(_))) <==> (brings_data(
            reply,
        ) || (brings_event(reply) && !data_only)),
        (ArqModel::source_result(reply, data_only) matches Poll::Ready(Err(_))) <==> ends(reply),
        (ArqModel::source_result(reply, data_only) matches Poll::Pending) <==> (idle(reply) || (
        brings_event(reply) && data_only)),
        ArqModel::source_result(reply, data_only) matches Poll::Ready(Err(err)) ==> err.kind
            == ErrorKind::ConnectionReset,
{
}

// ---------------------------------------------------------------------------
// Flushes
// ---------------------------------------------------------------------------

/// A flush goes on deciding where it starts, and where the source has brought
/// data or an event.
pub open spec fn flush_decides(input: FlushInput) -> bool {
    ||| input is Start
    ||| input matches FlushInput::Source(reply) && (brings_data(reply) || brings_event(reply))
}

/// A flush waits only where its reply is a wait: never at its start, and never
/// for as long as the sink and the source have something new.
pub proof fn law_flush_waits(model: ArqModel, input: FlushInput)
    ensures
        (model.flush_turn(input).1 matches FlushStep::Return(Poll::Pending)) <==> {
            ||| input matches FlushInput::Sink(Poll::Pending)
            ||| input matches FlushInput::Source(reply) && idle(reply)
        },
{
}

/// A flush with bytes outstanding on an open connection asks: for the sink to
/// be flushed if bytes are staged, else for the source. Once the sink is
/// flushed it asks for the source. It asks nowhere else.
pub proof fn law_flush_asks(model: ArqModel, input: FlushInput)
    ensures
        ({
            let (next, step) = model.flush_turn(input);
            &&& step is PollSink <==> flush_decides(input) && !next.closed_read && next.staged > 0
            &&& step is PollSource <==> {
                ||| input matches FlushInput::Sink(Poll::Ready(Ok(_)))
                ||| flush_decides(input) && !next.closed_read && next.staged == 0
                    && next.unacknowledged > 0
            }
        }),
{
}

/// A flush succeeds exactly where it finds no byte staged or unacknowledged,
/// at its start on an open connection, or after news from the source.
pub proof fn law_flush_succeeds(model: ArqModel, input: FlushInput)
    ensures
        ({
            let (next, step) = model.flush_turn(input);
            (step matches FlushStep::Return(Poll::Ready(Ok(_)))) <==> {
                &&& flush_decides(input)
                &&& next.staged == 0 && next.unacknowledged == 0
                &&& input is Start ==> !next.closed_read
            }
        }),
{
}

/// A flush fails with a reset exactly where the sink has failed or the TNC is
/// gone, and with a broken pipe exactly where the connection is closed: at its
/// start, or after news from the source with bytes still outstanding.
pub proof fn law_flush_fails(model: ArqModel, input: FlushInput)
    ensures
        ({
            let (next, step) = model.flush_turn(input);
            &&& (step matches FlushStep::Return(Poll::Ready(Err(err))) && err.kind
                == ErrorKind::ConnectionReset) <==> {
                ||| input matches FlushInput::Sink(Poll::Ready(Err(_)))
                ||| input matches FlushInput::Source(reply) && ends(reply)
            }
            &&& (step matches FlushStep::Return(Poll::Ready(Err(err))) && err.kind
                == ErrorKind::BrokenPipe) <==> {
                &&& flush_decides(input) && next.closed_read
                &&& input is Start || next.staged > 0 || next.unacknowledged > 0
            }
        }),
{
}

/// A flush changes a connection only by what the source replies.
pub proof fn law_flush_leaves(model: ArqModel, input: FlushInput)
    ensures
        model.flush_turn(input).0 == (match input {
            FlushInput::Source(reply) => model.after_source(reply),
            _ => model,
        }),
{
}

/// Over a whole call: a flush that returns to wait has had a wait for its last
/// reply, and one that fails has had a failure, or meets a closed connection.
pub proof fn law_flush_call_ends_for_a_reason(model: ArqModel, replies: Seq<FlushInput>)
    requires
        crate::tncio::arqlaws::flush_asks(model, replies),
    ensures
        ({
            let (now, step) = crate::tncio::arqlaws::flush_call(model, replies);
            match step {
                FlushStep::Return(Poll::Pending) => {
                    &&& replies.len() > 0
                    &&& {
                        ||| replies.last() matches FlushInput::Sink(Poll::Pending)
                        ||| replies.last() matches FlushInput::Source(reply) && idle(reply)
                    }
                },
                FlushStep::Return(Poll::Ready(Err(err))) => {
                    ||| err.kind == ErrorKind::BrokenPipe && now.closed_read
                    ||| err.kind == ErrorKind::ConnectionReset && replies.len() > 0 && {
                        ||| replies.last() matches FlushInput::Sink(Poll::Ready(Err(_)))
                        ||| replies.last() matches FlushInput::Source(reply) && ends(reply)
                    }
                },
                FlushStep::Return(Poll::Ready(Ok(_))) => {
                    now.staged == 0 && now.unacknowledged == 0 && !now.closed_read
                },
                FlushStep::PollSink => now.staged > 0 && !now.closed_read,
                FlushStep::PollSource => {
                    now.staged + now.unacknowledged > 0 && !now.closed_read
                },
            }
        }),
    decreases replies.len(),
{
    if replies.len() > 0 {
        law_flush_call_ends_for_a_reason(model, replies.drop_last());
        lemma_source_and_counts(
            crate::tncio::arqlaws::flush_call(model, replies.drop_last()).0,
            replies.last(),
        );
    } else {
        law_flush_asks(model, FlushInput::Start);
        law_flush_succeeds(model, FlushInput::Start);
        law_flush_fails(model, FlushInput::Start);
        law_flush_waits(model, FlushInput::Start);
    }
}

/// A reply that closes leaves the counts of bytes as they are.
proof fn lemma_source_and_counts(model: ArqModel, input: FlushInput)
    ensures
        ({
            let next = model.flush_turn(input).0;
            !model.closed_read && next.closed_read ==> next.staged == model.staged
                && next.unacknowledged == model.unacknowledged
        }),
{
}

/// A flush completes: on an open connection, once the sink is flushed and the
/// TNC reports that it has taken what was staged and then that it is empty,
/// the flush succeeds and every byte ever written is transmitted.
pub proof fn law_flush_completes(model: ArqModel, full: u64)
    requires
        model.wf(),
        !model.closed_read,
        model.staged > 0,
        full == model.reported + model.staged,
    ensures
        ({
            let replies = seq![
                FlushInput::Sink(Poll::Ready(Ok(()))),
                FlushInput::Source(
                    Poll::Ready(
                        Some(DataEvent::Event(ConnectionStateChange::SendBuffer(full))),
                    ),
                ),
                FlushInput::Source(
                    Poll::Ready(Some(DataEvent::Event(ConnectionStateChange::SendBuffer(0)))),
                ),
            ];
            let (now, step) = crate::tncio::arqlaws::flush_call(model, replies);
            &&& crate::tncio::arqlaws::flush_asks(model, replies)
            &&& step matches FlushStep::Return(Poll::Ready(Ok(_)))
            &&& now.transmitted == model.transmitted + model.unacknowledged + model.staged
        }),
{
    let sink = FlushInput::Sink(Poll::Ready(Ok(())));
    let up = FlushInput::Source(
        Poll::Ready(Some(DataEvent::Event(ConnectionStateChange::SendBuffer(full)))),
    );
    let down = FlushInput::Source(
        Poll::Ready(Some(DataEvent::Event(ConnectionStateChange::SendBuffer(0)))),
    );
    assert(seq![sink, up, down].drop_last() =~= seq![sink, up]);
    assert(seq![sink, up].drop_last() =~= seq![sink]);
    assert(seq![sink].drop_last() =~= Seq::<FlushInput>::empty());
    reveal_with_fuel(crate::tncio::arqlaws::flush_call, 4);
    reveal_with_fuel(crate::tncio::arqlaws::flush_asks, 4);
}

/// A flush goes on through any report that leaves bytes outstanding, on to the
/// one after which none is: in whatever portions the TNC takes and delivers
/// the bytes, the flush asks for the next reply until they are all delivered.
pub proof fn law_flush_goes_on(model: ArqModel, size: u64)
    requires
        !model.closed_read,
    ensures
        ({
            let (next, step) = model.flush_turn(
                FlushInput::Source(
                    Poll::Ready(
                        Some(DataEvent::Event(ConnectionStateChange::SendBuffer(size))),
                    ),
                ),
            );
            &&& next.staged > 0 ==> step is PollSink
            &&& next.staged == 0 && next.unacknowledged > 0 ==> step is PollSource
            &&& next.staged == 0 && next.unacknowledged == 0 ==> step matches FlushStep::Return(
                Poll::Ready(Ok(_)),
            )
        }),
{
}

// ---------------------------------------------------------------------------
// Writes
// ---------------------------------------------------------------------------

/// The steps of a write are told apart, and carry what they show.
pub proof fn law_write_steps_are_what_they_show(step: WriteStep)
    ensures
        step is FlushSink <==> step@ is FlushSink,
        step is FlushSource <==> step@ is FlushSource,
        step is PollReady <==> step@ is PollReady,
        step is StartSend <==> step@ is StartSend,
        step is PollFlush <==> step@ is PollFlush,
        step is Return <==> step@ is Return,
        step matches WriteStep::StartSend(data) ==> step@ == WriteAction::StartSend(
            crate::outside::bytes_contents(data),
        ),
        step matches WriteStep::Return(result) ==> step@ == WriteAction::Return(result),
{
}

/// A write goes on deciding whether there is room where the source has brought
/// data or an event.
pub open spec fn write_decides(input: WriteInput) -> bool {
    input matches WriteInput::FlushSource(reply) && (brings_data(reply) || brings_event(reply))
}

/// A write waits only where its reply is a wait of a flush, of the source or
/// of the sink before it has the data.
pub proof fn law_write_waits(model: ArqModel, data: Seq<u8>, input: WriteInput)
    ensures
        (model.write_turn(data, input).1 matches WriteAction::Return(Poll::Pending)) <==> {
            ||| input matches WriteInput::FlushSink(Poll::Pending)
            ||| input matches WriteInput::FlushSource(reply) && idle(reply)
            ||| input matches WriteInput::SinkReady(Poll::Pending)
        },
{
}

/// A write fails with a reset exactly where the sink has failed or the TNC is
/// gone.
pub proof fn law_write_is_reset(model: ArqModel, data: Seq<u8>, input: WriteInput)
    ensures
        (model.write_turn(data, input).1 matches WriteAction::Return(Poll::Ready(Err(err)))
            && err.kind == ErrorKind::ConnectionReset) <==> {
            ||| input matches WriteInput::FlushSink(Poll::Ready(Err(_)))
            ||| input matches WriteInput::FlushSource(reply) && ends(reply)
            ||| input matches WriteInput::SinkReady(Poll::Ready(Err(_)))
            ||| input matches WriteInput::SinkSent(Err(_))
            ||| input matches WriteInput::SinkFlushed(Poll::Ready(Err(_)))
        },
{
}

/// A write meets a broken pipe exactly where the connection is closed for
/// writing when it starts, or is found closed while the write waits for room.
/// How many bytes are on their way makes no difference.
pub proof fn law_write_meets_broken_pipe(model: ArqModel, data: Seq<u8>, input: WriteInput)
    requires
        model.wf(),
    ensures
        ({
            let (next, step) = model.write_turn(data, input);
            (step matches WriteAction::Return(Poll::Ready(Err(err))) && err.kind
                == ErrorKind::BrokenPipe) <==> {
                ||| input is Start && model.closed_write
                ||| write_decides(input) && next.closed_read && next.staged + next.unacknowledged
                    > 0
            }
        }),
{
}

/// A write returns a count exactly where the sink has the data and its flush
/// has not failed, and the count is that of the data.
pub proof fn law_write_succeeds(model: ArqModel, data: Seq<u8>, input: WriteInput)
    requires
        data.len() <= usize::MAX,
    ensures
        (model.write_turn(data, input).1 matches WriteAction::Return(Poll::Ready(Ok(_)))) <==> {
            ||| input matches WriteInput::SinkFlushed(Poll::Pending)
            ||| input matches WriteInput::SinkFlushed(Poll::Ready(Ok(_)))
        },
        model.write_turn(data, input).1 matches WriteAction::Return(Poll::Ready(Ok(count)))
            ==> count == data.len(),
{
}

/// A write asks the sink whether it is ready exactly where there is room: at
/// its start with at most 65535 bytes on their way, on a connection that is
/// open for writing, or once all bytes on their way have arrived.
pub proof fn law_write_asks_the_sink(model: ArqModel, data: Seq<u8>, input: WriteInput)
    ensures
        ({
            let (next, step) = model.write_turn(data, input);
            step is PollReady <==> {
                ||| input is Start && !model.closed_write && model.staged + model.unacknowledged
                    <= 65535
                ||| write_decides(input) && next.staged == 0 && next.unacknowledged == 0
            }
        }),
{
}

/// A ready sink is handed all of the data, and nothing else ever is. Once it
/// has taken the data it is flushed.
pub proof fn law_write_hands_over(model: ArqModel, data: Seq<u8>, input: WriteInput)
    ensures
        model.write_turn(data, input).1 is StartSend <==> (input matches WriteInput::SinkReady(
            Poll::Ready(Ok(_)),
        )),
        model.write_turn(data, input).1 matches WriteAction::StartSend(bytes) ==> bytes == data,
        model.write_turn(data, input).1 is PollFlush <==> (input matches WriteInput::SinkSent(
            Ok(_),
        )),
{
}

/// A write that finds more than 65535 bytes on their way makes room first, as
/// a flush does: it has the sink flushed while bytes are staged, and then asks
/// for the source.
pub proof fn law_write_makes_room(model: ArqModel, data: Seq<u8>, input: WriteInput)
    requires
        model.wf(),
    ensures
        ({
            let (next, step) = model.write_turn(data, input);
            let crowded = input is Start && !model.closed_write && model.staged
                + model.unacknowledged > 65535;
            let crowded_still = write_decides(input) && !next.closed_read && next.staged
                + next.unacknowledged > 0;
            &&& step is FlushSink <==> (crowded || crowded_still) && next.staged > 0
            &&& step is FlushSource <==> {
                ||| input matches WriteInput::FlushSink(Poll::Ready(Ok(_)))
                ||| (crowded || crowded_still) && next.staged == 0
            }
        }),
{
}

/// A write changes a connection by what the source replies, and stages the
/// data exactly where the sink has taken it. Nothing else changes.
pub proof fn law_write_leaves(model: ArqModel, data: Seq<u8>, input: WriteInput)
    ensures
        ({
            let next = model.write_turn(data, input).0;
            match input {
                WriteInput::FlushSource(reply) => next == model.after_source(reply),
                WriteInput::SinkSent(Ok(_)) => {
                    &&& next.staged == model.staged + data.len()
                    &&& next == (ArqModel { staged: next.staged, ..model })
                },
                _ => next == model,
            }
        }),
{
}

/// A write goes through: on a connection that is open for writing, with at most
/// 65535 bytes on their way, a sink that is ready and takes the data makes the
/// write return the length of the data, which is then staged.
pub proof fn law_write_goes_through(model: ArqModel, data: Seq<u8>, flushed: WriteInput)
    requires
        !model.closed_write,
        model.staged + model.unacknowledged <= 65535,
        data.len() <= usize::MAX,
        flushed is SinkFlushed,
        !(flushed matches WriteInput::SinkFlushed(Poll::Ready(Err(_)))),
    ensures
        ({
            let ready = WriteInput::SinkReady(Poll::Ready(Ok(())));
            let taken = WriteInput::SinkSent(Ok(()));
            let start = crate::tncio::arqlaws::write_call(model, data, seq![]);
            let offer = crate::tncio::arqlaws::write_call(model, data, seq![ready]);
            let staged = crate::tncio::arqlaws::write_call(model, data, seq![ready, taken]);
            let end = crate::tncio::arqlaws::write_call(model, data, seq![ready, taken, flushed]);
            &&& start.1 is PollReady
            &&& offer.1 == WriteAction::StartSend(data)
            &&& staged.1 is PollFlush
            &&& end.1 matches WriteAction::Return(Poll::Ready(Ok(count))) && count == data.len()
            &&& end.0.staged == model.staged + data.len()
            &&& end.0 == (ArqModel { staged: end.0.staged, ..model })
            &&& crate::tncio::arqlaws::write_asks(model, data, seq![ready, taken, flushed])
        }),
{
    let ready = WriteInput::SinkReady(Poll::Ready(Ok(())));
    let taken = WriteInput::SinkSent(Ok(()));
    assert(seq![ready, taken, flushed].drop_last() =~= seq![ready, taken]);
    assert(seq![ready, taken].drop_last() =~= seq![ready]);
    assert(seq![ready].drop_last() =~= Seq::<WriteInput>::empty());
    reveal_with_fuel(crate::tncio::arqlaws::write_call, 4);
    reveal_with_fuel(crate::tncio::arqlaws::write_asks, 4);
}

/// Over a whole call: a write meets a broken pipe only where the connection was
/// closed for writing when it started or has been closed since, a reset only
/// where its last reply is a failure of the sink or the end of the source, and
/// a wait only where its last reply is one.
pub proof fn law_write_call_ends_for_a_reason(
    model: ArqModel,
    data: Seq<u8>,
    replies: Seq<WriteInput>,
)
    requires
        model.wf(),
        crate::tncio::arqlaws::write_asks(model, data, replies),
    ensures
        ({
            let (now, step) = crate::tncio::arqlaws::write_call(model, data, replies);
            match step {
                WriteAction::Return(Poll::Pending) => {
                    &&& replies.len() > 0
                    &&& {
                        ||| replies.last() matches WriteInput::FlushSink(Poll::Pending)
                        ||| replies.last() matches WriteInput::FlushSource(reply) && idle(reply)
                        ||| replies.last() matches WriteInput::SinkReady(Poll::Pending)
                    }
                },
                WriteAction::Return(Poll::Ready(Err(err))) => {
                    ||| err.kind == ErrorKind::BrokenPipe && replies.len() == 0
                        && model.closed_write
                    ||| err.kind == ErrorKind::BrokenPipe && !model.closed_read && now.closed_read
                    ||| err.kind == ErrorKind::ConnectionReset && replies.len() > 0 && {
                        ||| replies.last() matches WriteInput::FlushSink(Poll::Ready(Err(_)))
                        ||| replies.last() matches WriteInput::FlushSource(reply) && ends(reply)
                        ||| replies.last() matches WriteInput::SinkReady(Poll::Ready(Err(_)))
                        ||| replies.last() matches WriteInput::SinkSent(Err(_))
                        ||| replies.last() matches WriteInput::SinkFlushed(Poll::Ready(Err(_)))
                    }
                },
                WriteAction::Return(Poll::Ready(Ok(_count))) => replies.len() > 0
                    && replies.last() is SinkFlushed,
                _ => !model.closed_write,
            }
        }),
    decreases replies.len(),
{
    if replies.len() > 0 {
        law_write_call_ends_for_a_reason(model, data, replies.drop_last());
    }
}

// ---------------------------------------------------------------------------
// Reads
// ---------------------------------------------------------------------------

/// A read turns to the unread bytes where it starts, and where the source has
/// brought data.
pub open spec fn read_looks(input: ReadInput) -> bool {
    ||| input is Start
    ||| input matches ReadInput::Source(reply) && brings_data(reply)
}

/// The connection once the reply that a read is called with has had its effect.
pub open spec fn with_reply(model: ArqModel, input: ReadInput) -> ArqModel {
    match input {
        ReadInput::Start => model,
        ReadInput::Source(reply) => model.after_source(reply),
    }
}

/// A read moves bytes from the front of what is unread, as long as there is
/// room and as long as there are any, and moves none where it does not look.
/// Other than that, only the count of bytes received can change.
pub proof fn law_read_moves(model: ArqModel, total: nat, room: nat, input: ReadInput)
    requires
        total <= room <= usize::MAX,
    ensures
        ({
            let turn = model.read_turn(total, room, input);
            let at_hand = with_reply(model, input);
            &&& turn.copied + turn.model.unread == at_hand.unread
            &&& total + turn.copied.len() <= room
            &&& read_looks(input) ==> total + turn.copied.len() == room
                || turn.model.unread.len() == 0
            &&& !read_looks(input) ==> turn.copied.len() == 0
            &&& turn.model == (ArqModel {
                unread: turn.model.unread,
                received: turn.model.received,
                ..at_hand
            })
        }),
{
    let turn = model.read_turn(total, room, input);
    let at_hand = with_reply(model, input);
    assert(turn.copied + turn.model.unread =~= at_hand.unread);
}

/// A read asks for the source exactly where it has looked, has room left, and
/// the connection is open: whatever it has received before. It then says how
/// many bytes it has copied in all.
pub proof fn law_read_asks(model: ArqModel, total: nat, room: nat, input: ReadInput)
    requires
        total <= room <= usize::MAX,
    ensures
        ({
            let turn = model.read_turn(total, room, input);
            &&& turn.step is PollSource <==> read_looks(input) && total + turn.copied.len() < room
                && !turn.model.closed_read
            &&& turn.step matches ReadStep::PollSource { total_read } ==> total_read == total
                + turn.copied.len()
        }),
{
}

/// A read waits exactly where it has copied nothing on an open connection, and
/// has no room, or has had a wait or an event for its reply.
pub proof fn law_read_waits(model: ArqModel, total: nat, room: nat, input: ReadInput)
    requires
        total <= room <= usize::MAX,
    ensures
        ({
            let turn = model.read_turn(total, room, input);
            (turn.step matches ReadStep::Return(Poll::Pending)) <==> {
                &&& total == 0 && !turn.model.closed_read
                &&& {
                    ||| room == 0 && read_looks(input)
                    ||| input matches ReadInput::Source(reply) && (idle(reply) || brings_event(
                        reply,
                    ))
                }
            }
        }),
{
}

/// A read fails exactly where the TNC is gone, with a reset.
pub proof fn law_read_fails(model: ArqModel, total: nat, room: nat, input: ReadInput)
    requires
        total <= room <= usize::MAX,
    ensures
        ({
            let turn = model.read_turn(total, room, input);
            &&& (turn.step matches ReadStep::Return(Poll::Ready(Err(_)))) <==> (input
                matches ReadInput::Source(reply) && ends(reply))
            &&& turn.step matches ReadStep::Return(Poll::Ready(Err(err))) ==> err.kind
                == ErrorKind::ConnectionReset
        }),
{
}

/// A read returns a count exactly where it neither asks, waits nor fails: its
/// buffer is full, or the connection is closed, or it has copied something and
/// its reply brings no more. The count is that of all bytes copied, and the
/// count of bytes received grows by it, and by nothing else.
pub proof fn law_read_counts(model: ArqModel, total: nat, room: nat, input: ReadInput)
    requires
        total <= room <= usize::MAX,
    ensures
        ({
            let turn = model.read_turn(total, room, input);
            let all = total + turn.copied.len();
            &&& (turn.step matches ReadStep::Return(Poll::Ready(Ok(_)))) <==> {
                &&& !(input matches ReadInput::Source(reply) && ends(reply))
                &&& turn.model.closed_read || all > 0
                &&& turn.model.closed_read || all == room || !read_looks(input)
            }
            &&& turn.step matches ReadStep::Return(Poll::Ready(Ok(count))) ==> count == all
                && turn.model.received == model.received + count
            &&& !(turn.step matches ReadStep::Return(Poll::Ready(Ok(_))))
                ==> turn.model.received == model.received
        }),
{
}

/// A read fetches: on an open connection with nothing unread, a read with room
/// asks for the source, and what the source then brings it gets, from the
/// start, as far as there is room.
pub proof fn law_read_fetches(model: ArqModel, room: nat, data: Bytes)
    requires
        !model.closed_read,
        model.unread.len() == 0,
        0 < room <= usize::MAX,
    ensures
        ({
            let reply = Poll::Ready(Some(DataEvent::Data(DataIn::ARQ(data))));
            let bytes = crate::outside::bytes_contents(data);
            let start = crate::tncio::arqlaws::read_call(model, room, seq![]);
            let next = crate::tncio::arqlaws::read_call(model, room, seq![reply]);
            let end = crate::tncio::arqlaws::read_call(model, room, seq![reply, Poll::Pending]);
            &&& start.step is PollSource
            &&& next.copied + next.model.unread == bytes
            &&& bytes.len() >= room ==> {
                &&& next.copied == bytes.take(room as int)
                &&& next.step matches ReadStep::Return(Poll::Ready(Ok(count))) && count == room
            }
            &&& 0 < bytes.len() < room ==> {
                &&& end.copied == bytes
                &&& end.step matches ReadStep::Return(Poll::Ready(Ok(count))) && count
                    == bytes.len()
                &&& end.model.received == model.received + bytes.len()
            }
        }),
{
    let reply = Poll::Ready(Some(DataEvent::Data(DataIn::ARQ(data))));
    let pending: SourcePoll = Poll::Pending;
    let bytes = crate::outside::bytes_contents(data);
    let start = crate::tncio::arqlaws::read_call(model, room, seq![]);
    assert(seq![reply, pending].drop_last() =~= seq![reply]);
    assert(seq![reply].drop_last() =~= Seq::<SourcePoll>::empty());
    reveal_with_fuel(crate::tncio::arqlaws::read_call, 3);
    assert(start.copied =~= Seq::<u8>::empty());
    assert(start.model.unread + bytes =~= bytes);
    let next = crate::tncio::arqlaws::read_call(model, room, seq![reply]);
    assert(next.copied + next.model.unread =~= bytes);
    if bytes.len() >= room {
        assert(next.copied =~= bytes.take(room as int));
    } else {
        let end = crate::tncio::arqlaws::read_call(model, room, seq![reply, pending]);
        assert(end.copied =~= bytes);
    }
}

/// Over a whole call: a read that ends short of a full buffer on an open
/// connection has had a wait or an event for its last reply, and one that has
/// to wait has had the same, or has no room.
pub proof fn law_read_call_ends_for_a_reason(
    model: ArqModel,
    room: nat,
    replies: Seq<SourcePoll>,
)
    requires
        room <= usize::MAX,
        crate::tncio::arqlaws::read_asks(model, room, replies),
    ensures
        ({
            let now = crate::tncio::arqlaws::read_call(model, room, replies);
            let held_up = replies.len() > 0 && (idle(replies.last()) || brings_event(
                replies.last(),
            ));
            match now.step {
                ReadStep::Return(Poll::Pending) => room == 0 || held_up,
                ReadStep::Return(Poll::Ready(Ok(count))) => {
                    count == room || now.model.closed_read || held_up
                },
                ReadStep::Return(Poll::Ready(Err(_err))) => replies.len() > 0 && ends(
                    replies.last(),
                ),
                ReadStep::PollSource { total_read } => !now.model.closed_read && total_read < room,
            }
        }),
{
    crate::tncio::arqlaws::law_read_returns_what_it_did(model, room, replies);
    if replies.len() > 0 {
        crate::tncio::arqlaws::law_read_returns_what_it_did(model, room, replies.drop_last());
    }
}

// ---------------------------------------------------------------------------
// Opening, closing and the clock
// ---------------------------------------------------------------------------

/// A new connection is open both ways, holds no bytes and has counted none.
pub proof fn law_new_connection(info: ConnectionInfo)
    ensures
        ArqModel::opened(info).info == info,
        ArqModel::opened(info).unread.len() == 0,
        !ArqModel::opened(info).closed_read,
        !ArqModel::opened(info).closed_write,
        ArqModel::opened(info).received == 0,
        ArqModel::opened(info).transmitted == 0,
        ArqModel::opened(info).unacknowledged == 0,
        ArqModel::opened(info).staged == 0,
        ArqModel::opened(info).reported == 0,
{
}

/// Closing changes nothing but that the connection is closed, both ways or for
/// writing.
pub proof fn law_closing(model: ArqModel)
    ensures
        model.closed() == (ArqModel { closed_read: true, closed_write: true, ..model }),
        model.closed_for_writing() == (ArqModel { closed_write: true, ..model }),
{
}

/// A connection keeps the instant at which it was opened. Once the time for
/// which it was open is recorded it stands, and when it is recorded, it is
/// what the clock shows to have elapsed since that instant.
pub proof fn law_times_stand(before: &ArqState, now: &ArqState)
    requires
        now.same_times(before),
    ensures
        now.open_time() == before.open_time(),
        before.final_elapsed_time() is Some ==> now.final_elapsed_time()
            == before.final_elapsed_time(),
        before.final_elapsed_time() is None && now.final_elapsed_time() is Some ==> call_ensures(
            crate::outside::instant_elapsed,
            (&before.open_time(),),
            now.final_elapsed_time()->0,
        ),
{
}

/// The time for which a connection is or was open: the recorded one, if there
/// is one, else what the clock shows to have elapsed since the opening.
pub proof fn law_elapsed_time(state: &ArqState, elapsed: std::time::Duration)
    requires
        state.is_elapsed(elapsed),
    ensures
        state.final_elapsed_time() is Some ==> state.final_elapsed_time() == Some(elapsed),
        state.final_elapsed_time() is None ==> call_ensures(
            crate::outside::instant_elapsed,
            (&state.open_time(),),
            elapsed,
        ),
{
}

/// The time for which a connection was open is known exactly once it is closed,
/// and a connection that is closed for reading is closed for writing.
pub proof fn law_closed_connections_know_their_time(state: &ArqState)
    requires
        state.wf(),
    ensures
        state@.closed_read <==> state.final_elapsed_time() is Some,
        state@.closed_read ==> state@.closed_write,
        state@.unacknowledged <= state@.reported,
{
}

// ---------------------------------------------------------------------------
// Buffers
// ---------------------------------------------------------------------------

/// The lesser of two counts is one of them and exceeds neither.
pub proof fn law_lesser(a: nat, b: nat)
    ensures
        crate::tncio::arqmodel::lesser(a, b) <= a,
        crate::tncio::arqmodel::lesser(a, b) <= b,
        crate::tncio::arqmodel::lesser(a, b) == a || crate::tncio::arqmodel::lesser(a, b) == b,
{
}

/// Bytes that are copied into a buffer lie there from the given index on, one
/// behind the other, and the buffer keeps its length and all other bytes.
pub proof fn law_overwritten(buf: Seq<u8>, at: int, data: Seq<u8>, i: int)
    requires
        0 <= at,
        at + data.len() <= buf.len(),
        0 <= i < buf.len(),
    ensures
        crate::tncio::arqmodel::overwritten(buf, at, data).len() == buf.len(),
        at <= i < at + data.len() ==> crate::tncio::arqmodel::overwritten(buf, at, data)[i]
            == data[i - at],
        i < at || at + data.len() <= i ==> crate::tncio::arqmodel::overwritten(buf, at, data)[i]
            == buf[i],
{
}

} // verus!
