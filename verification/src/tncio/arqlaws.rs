//! What holds of a connection over any number of turns
//!
//! The first part follows a connection through a *history*: turns of reads,
//! flushes, writes and shutdowns, in any order. The rest follows one call from
//! its start, through the replies that it asks for.

use vstd::prelude::*;

use crate::error::{ErrorKind, TncError};
use crate::protocol::response::ConnectionStateChange;
use crate::tncio::arqmodel::{
    ArqModel, FlushInput, FlushStep, Poll, ReadInput, ReadStep, ReadTurn, SourcePoll, WriteAction,
    WriteInput, SEND_HWM,
};
use crate::tncio::dataevent::DataEvent;

verus! {

/// A turn of a call, or a shutdown.
pub enum Turn {
    /// A turn of a read that has copied `total` bytes into a buffer of `room`.
    Read { total: nat, room: nat, input: ReadInput },
    /// A turn of a flush.
    Flush(FlushInput),
    /// A turn of a write of these bytes.
    Write(Seq<u8>, WriteInput),
    /// A shutdown for reading and writing.
    ShutdownRead,
    /// A shutdown for writing.
    ShutdownWrite,
}

/// The source replies that the connection is closed, or that the TNC is gone.
pub open spec fn closing(reply: SourcePoll) -> bool {
    match reply {
        Poll::Ready(None) => true,
        Poll::Ready(Some(DataEvent::Event(ConnectionStateChange::Closed))) => true,
        _ => false,
    }
}

impl Turn {
    /// The turn can be taken: a read has not copied more than its buffer
    /// holds, and the byte counts do not outgrow 64 bits.
    pub open spec fn possible(self, model: ArqModel) -> bool {
        match self {
            Turn::Read { total, room, input } => {
                &&& total <= room <= usize::MAX
                &&& model.received + room <= u64::MAX
            },
            Turn::Write(data, input) => {
                input matches WriteInput::SinkSent(Ok(_)) ==> model.accepted() + data.len()
                    <= u64::MAX
            },
            _ => true,
        }
    }

    /// The bytes of the connection that arrive with the turn.
    pub open spec fn arrived(self) -> Seq<u8> {
        match self {
            Turn::Read { total, room, input: ReadInput::Source(reply) } => {
                crate::tncio::arqmodel::payload(reply)
            },
            Turn::Flush(FlushInput::Source(reply)) => {
                crate::tncio::arqmodel::payload(reply)
            },
            Turn::Write(data, WriteInput::FlushSource(reply)) => {
                crate::tncio::arqmodel::payload(reply)
            },
            _ => Seq::empty(),
        }
    }

    /// The bytes that the turn copies to a reader.
    pub open spec fn copied(self, model: ArqModel) -> Seq<u8> {
        match self {
            Turn::Read { total, room, input } => model.read_turn(total, room, input).copied,
            _ => Seq::empty(),
        }
    }

    /// The turn closes the connection, if it is open: it is a shutdown for
    /// reading and writing, or the source replies that the connection is
    /// closed or that the TNC is gone.
    pub open spec fn closes(self) -> bool {
        match self {
            Turn::Read { total, room, input: ReadInput::Source(reply) } => closing(reply),
            Turn::Flush(FlushInput::Source(reply)) => closing(reply),
            Turn::Write(_data, WriteInput::FlushSource(reply)) => closing(reply),
            Turn::ShutdownRead => true,
            _ => false,
        }
    }

    /// How many bytes the sink takes in the turn.
    pub open spec fn written(self) -> nat {
        match self {
            Turn::Write(data, WriteInput::SinkSent(Ok(_))) => data.len(),
            _ => 0,
        }
    }
}

impl ArqModel {
    /// The connection after a turn.
    pub open spec fn after_turn(self, turn: Turn) -> ArqModel {
        match turn {
            Turn::Read { total, room, input } => self.read_turn(total, room, input).model,
            Turn::Flush(input) => self.flush_turn(input).0,
            Turn::Write(data, input) => self.write_turn(data, input).0,
            Turn::ShutdownRead => self.closed(),
            Turn::ShutdownWrite => self.closed_for_writing(),
        }
    }

    /// The connection after a history.
    pub open spec fn after(self, history: Seq<Turn>) -> ArqModel
        decreases history.len(),
    {
        if history.len() == 0 {
            self
        } else {
            self.after(history.drop_last()).after_turn(history.last())
        }
    }

    /// Every turn of the history can be taken when its time comes.
    pub open spec fn possible(self, history: Seq<Turn>) -> bool
        decreases history.len(),
    {
        history.len() > 0 ==> {
            &&& self.possible(history.drop_last())
            &&& history.last().possible(self.after(history.drop_last()))
        }
    }

    /// The bytes that a history copies to readers.
    pub open spec fn copied(self, history: Seq<Turn>) -> Seq<u8>
        decreases history.len(),
    {
        if history.len() == 0 {
            Seq::empty()
        } else {
            self.copied(history.drop_last()) + history.last().copied(
                self.after(history.drop_last()),
            )
        }
    }
}

/// The bytes of the connection that arrive over a history.
pub open spec fn arrived(history: Seq<Turn>) -> Seq<u8>
    decreases history.len(),
{
    if history.len() == 0 {
        Seq::empty()
    } else {
        arrived(history.drop_last()) + history.last().arrived()
    }
}

/// How many bytes the sink takes over a history.
pub open spec fn written(history: Seq<Turn>) -> nat
    decreases history.len(),
{
    if history.len() == 0 {
        0
    } else {
        written(history.drop_last()) + history.last().written()
    }
}

/// What holds of every connection holds after any history that can be taken:
/// in particular, no more bytes ever await acknowledgement than the TNC
/// reports to hold.
pub proof fn law_well_formed_forever(model: ArqModel, history: Seq<Turn>)
    requires
        model.wf(),
        model.possible(history),
    ensures
        model.after(history).wf(),
    decreases history.len(),
{
    if history.len() > 0 {
        law_well_formed_forever(model, history.drop_last());
    }
}

/// What a reply of the source brings is unread behind what was unread before.
pub proof fn lemma_source_appends(model: ArqModel, reply: SourcePoll)
    ensures
        model.after_source(reply).unread =~= model.unread + crate::tncio::arqmodel::payload(reply),
{
}

/// A read takes bytes from the front of what is unread.
proof fn lemma_read_takes_from_the_front(model: ArqModel, total: nat, room: nat)
    ensures
        model.read_on(total, room).copied + model.read_on(total, room).model.unread
            =~= model.unread,
{
}

/// A single turn neither loses nor reorders bytes.
proof fn lemma_turn_keeps_order(model: ArqModel, turn: Turn)
    ensures
        turn.copied(model) + model.after_turn(turn).unread =~= model.unread + turn.arrived(),
{
    match turn {
        Turn::Read { total, room, input: ReadInput::Start } => {
            lemma_read_takes_from_the_front(model, total, room);
        },
        Turn::Read { total, room, input: ReadInput::Source(reply) } => {
            lemma_source_appends(model, reply);
            lemma_read_takes_from_the_front(model.after_source(reply), total, room);
        },
        Turn::Flush(FlushInput::Source(reply)) => {
            lemma_source_appends(model, reply);
        },
        Turn::Write(_data, WriteInput::FlushSource(reply)) => {
            lemma_source_appends(model, reply);
        },
        _ => {},
    }
}

/// No byte that arrives is lost, repeated or moved while it is held: what has
/// been copied to readers, followed by what is unread, is what was unread at
/// first, followed by what has arrived.
pub proof fn law_bytes_leave_in_order(model: ArqModel, history: Seq<Turn>)
    ensures
        model.copied(history) + model.after(history).unread == model.unread + arrived(history),
    decreases history.len(),
{
    if history.len() > 0 {
        let before = model.after(history.drop_last());
        let turn = history.last();
        law_bytes_leave_in_order(model, history.drop_last());
        lemma_turn_keeps_order(before, turn);
        assert(model.copied(history) + model.after(history).unread =~= model.copied(
            history.drop_last(),
        ) + (turn.copied(before) + before.after_turn(turn).unread));
        assert(model.unread + arrived(history) =~= (model.unread + arrived(history.drop_last()))
            + turn.arrived());
        assert((model.copied(history.drop_last()) + before.unread) + turn.arrived()
            =~= model.copied(history.drop_last()) + (before.unread + turn.arrived()));
    } else {
        assert(model.copied(history) + model.unread =~= model.unread + arrived(history));
    }
}

/// Every byte that the sink has taken is staged, unacknowledged or
/// transmitted, and counts once.
pub proof fn law_written_bytes_are_accounted_for(model: ArqModel, history: Seq<Turn>)
    ensures
        model.after(history).accepted() == model.accepted() + written(history),
    decreases history.len(),
{
    if history.len() > 0 {
        law_written_bytes_are_accounted_for(model, history.drop_last());
    }
}

/// A single turn takes nothing back.
proof fn lemma_turn_takes_nothing_back(model: ArqModel, turn: Turn)
    ensures
        model.after_turn(turn).received >= model.received,
        model.after_turn(turn).transmitted >= model.transmitted,
        model.closed_read ==> model.after_turn(turn).closed_read,
        model.closed_write ==> model.after_turn(turn).closed_write,
        model.after_turn(turn).info == model.info,
{
}

/// The counts of bytes received and transmitted never fall, a connection that
/// is closed stays closed, and its metadata never changes.
pub proof fn law_nothing_is_taken_back(model: ArqModel, history: Seq<Turn>)
    ensures
        model.after(history).received >= model.received,
        model.after(history).transmitted >= model.transmitted,
        model.closed_read ==> model.after(history).closed_read,
        model.closed_write ==> model.after(history).closed_write,
        model.after(history).info == model.info,
    decreases history.len(),
{
    if history.len() > 0 {
        law_nothing_is_taken_back(model, history.drop_last());
        lemma_turn_takes_nothing_back(model.after(history.drop_last()), history.last());
    }
}

/// A single turn closes the connection exactly where it is a turn that does.
proof fn lemma_turn_closes(model: ArqModel, turn: Turn)
    ensures
        model.after_turn(turn).closed_read == (model.closed_read || turn.closes()),
        model.after_turn(turn).closed_write == (model.closed_write || turn.closes() || turn
            is ShutdownWrite),
{
}

/// A connection is closed exactly where it was closed at first or some turn has
/// closed it: a shutdown for reading and writing, or a reply of the source that
/// the connection is closed or that the TNC is gone. It is closed for writing
/// exactly where, besides, there may have been a shutdown for writing.
pub proof fn law_what_closes_a_connection(model: ArqModel, history: Seq<Turn>)
    ensures
        model.after(history).closed_read <==> model.closed_read || exists|i: int|
            0 <= i < history.len() && (#[trigger] history[i]).closes(),
        model.after(history).closed_write <==> model.closed_write || exists|i: int|
            0 <= i < history.len() && ((#[trigger] history[i]).closes() || history[i]
                is ShutdownWrite),
    decreases history.len(),
{
    if history.len() > 0 {
        let earlier = history.drop_last();
        let last = history.len() - 1;
        law_what_closes_a_connection(model, earlier);
        lemma_turn_closes(model.after(earlier), history.last());
        assert(history[last] == history.last());
        assert(forall|i: int| 0 <= i < last ==> #[trigger] history[i] == earlier[i]);
        assert(forall|i: int| 0 <= i < last ==> #[trigger] earlier[i] == history[i]);
    }
}

/// On a closed connection, reads present what was retrieved before and then
/// the end of the stream, without a look at the source; writes and flushes
/// fail with a broken pipe and change nothing.
pub proof fn law_closed_connection(model: ArqModel, room: nat, data: Seq<u8>)
    requires
        model.wf(),
        model.closed_read,
        room <= usize::MAX,
    ensures
        ({
            let turn = model.read_turn(0, room, ReadInput::Start);
            let count = crate::tncio::arqmodel::lesser(model.unread.len(), room);
            &&& turn.step == ReadStep::Return(Poll::Ready(Ok(count as usize)))
            &&& turn.copied == model.unread.take(count as int)
            &&& turn.model.unread == model.unread.skip(count as int)
            &&& turn.model.received == model.received + count
        }),
        model.flush_turn(FlushInput::Start) == (
            model,
            FlushStep::Return(Poll::Ready(Err(TncError::broken_pipe()))),
        ),
        model.write_turn(data, WriteInput::Start) == (
            model,
            WriteAction::Return(Poll::Ready(Err(TncError::broken_pipe()))),
        ),
{
}

/// A connection that is closed for writing takes no more data; it can still
/// be flushed, and read, as before.
pub proof fn law_closed_for_writing(
    model: ArqModel,
    data: Seq<u8>,
    total: nat,
    room: nat,
    read: ReadInput,
    flush: FlushInput,
)
    ensures
        model.closed_for_writing().write_turn(data, WriteInput::Start).1 == WriteAction::Return(
            Poll::Ready(Err(TncError::broken_pipe())),
        ),
        model.closed_for_writing().flush_turn(flush).1 == model.flush_turn(flush).1,
        model.closed_for_writing().read_turn(total, room, read).step == model.read_turn(
            total,
            room,
            read,
        ).step,
        model.closed_for_writing().read_turn(total, room, read).copied == model.read_turn(
            total,
            room,
            read,
        ).copied,
{
}

/// To close a connection again changes nothing.
pub proof fn law_closing_twice(model: ArqModel)
    ensures
        model.closed().closed() == model.closed(),
        model.closed().closed_for_writing() == model.closed(),
        model.closed_for_writing().closed() == model.closed(),
{
}

/// Reports of the TNC's buffer move bytes forward only: from staged to
/// unacknowledged, and from there to transmitted.
pub proof fn law_bytes_move_forward(model: ArqModel, size: nat)
    ensures
        model.reported_buffer(size).staged <= model.staged,
        model.reported_buffer(size).outstanding() <= model.outstanding(),
        model.reported_buffer(size).transmitted >= model.transmitted,
        model.reported_buffer(size).accepted() == model.accepted(),
        model.reported_buffer(size).staged < model.staged
            ==> model.reported_buffer(size).transmitted == model.transmitted,
{
}

/// The same report twice is as good as once.
pub proof fn law_repeated_report(model: ArqModel, size: nat)
    ensures
        model.reported_buffer(size).reported_buffer(size) == model.reported_buffer(size),
{
}

/// A report on the way to another does not matter: if the TNC's buffer grows,
/// or shrinks, to one size and on to another, the last report alone comes to
/// the same.
pub proof fn law_report_on_the_way(model: ArqModel, first: nat, second: nat)
    requires
        model.reported <= first <= second || model.reported >= first >= second,
    ensures
        model.reported_buffer(first).reported_buffer(second) == model.reported_buffer(second),
{
}

/// An event neither makes nor loses a byte, takes none back, and leaves what
/// is unread, what has been received and the metadata as they are. Only
/// `Closed` closes, only `SendBuffer` moves bytes, and any other event changes
/// nothing.
pub proof fn law_events(model: ArqModel, event: ConnectionStateChange)
    ensures
        model.after_event(event).accepted() == model.accepted(),
        model.after_event(event).staged <= model.staged,
        model.after_event(event).transmitted >= model.transmitted,
        model.after_event(event).received == model.received,
        model.after_event(event).unread == model.unread,
        model.after_event(event).info == model.info,
        model.wf() ==> model.after_event(event).wf(),
        event !is Closed ==> {
            &&& model.after_event(event).closed_read == model.closed_read
            &&& model.after_event(event).closed_write == model.closed_write
        },
        event !is SendBuffer ==> {
            &&& model.after_event(event).staged == model.staged
            &&& model.after_event(event).unacknowledged == model.unacknowledged
            &&& model.after_event(event).transmitted == model.transmitted
            &&& model.after_event(event).reported == model.reported
        },
        event is Other ==> model.after_event(event) == model,
{
}

/// A call that waits for data alone and one that does not differ only after an
/// event, which sends the first back to wait. What the reply makes of the
/// connection is the same for both.
pub proof fn law_data_only(reply: SourcePoll)
    ensures
        match reply {
            Poll::Ready(Some(DataEvent::Event(_event))) => {
                &&& ArqModel::source_result(reply, true) is Pending
                &&& ArqModel::source_result(reply, false) == Poll::Ready(Ok::<(), TncError>(()))
            },
            _ => ArqModel::source_result(reply, true) == ArqModel::source_result(reply, false),
        },
{
}

/// Once the TNC reports an empty buffer, no byte awaits acknowledgement: all
/// that did is transmitted.
pub proof fn law_empty_buffer(model: ArqModel)
    requires
        model.wf(),
    ensures
        model.reported_buffer(0).unacknowledged == 0,
        model.reported_buffer(0).transmitted == model.transmitted + model.unacknowledged,
        model.reported_buffer(0).staged == model.staged,
{
}

/// When the TNC's buffer grows by all that is staged and then runs empty, all
/// bytes ever written are transmitted, and the connection is flushed.
pub proof fn law_buffer_takes_all_and_empties(model: ArqModel)
    requires
        model.wf(),
        !model.closed_read,
    ensures
        ({
            let done = model.reported_buffer(model.reported + model.staged).reported_buffer(0);
            &&& done.outstanding() == 0
            &&& done.transmitted == model.accepted()
            &&& done.flush_turn(FlushInput::Start).1 == FlushStep::Return(Poll::Ready(Ok(())))
        }),
{
}

/// Two pieces copied into a buffer one behind the other lie there as one: the
/// turns of a read fill its buffer from the start without a gap.
pub proof fn law_turns_fill_the_buffer(buf: Seq<u8>, first: Seq<u8>, second: Seq<u8>)
    requires
        first.len() + second.len() <= buf.len(),
    ensures
        crate::tncio::arqmodel::overwritten(
            crate::tncio::arqmodel::overwritten(buf, 0, first),
            first.len() as int,
            second,
        ) == crate::tncio::arqmodel::overwritten(buf, 0, first + second),
{
    assert(crate::tncio::arqmodel::overwritten(
        crate::tncio::arqmodel::overwritten(buf, 0, first),
        first.len() as int,
        second,
    ) =~= crate::tncio::arqmodel::overwritten(buf, 0, first + second));
}

/// A read into a buffer of `room` bytes, after these replies of the source:
/// the connection, all that has been copied, and what the read asks for.
pub open spec fn read_call(model: ArqModel, room: nat, replies: Seq<SourcePoll>) -> ReadTurn
    decreases replies.len(),
{
    if replies.len() == 0 {
        model.read_turn(0, room, ReadInput::Start)
    } else {
        let before = read_call(model, room, replies.drop_last());
        let turn = before.model.read_turn(
            before.copied.len(),
            room,
            ReadInput::Source(replies.last()),
        );
        ReadTurn { copied: before.copied + turn.copied, ..turn }
    }
}

/// The read asks for every one of these replies.
pub open spec fn read_asks(model: ArqModel, room: nat, replies: Seq<SourcePoll>) -> bool
    decreases replies.len(),
{
    replies.len() > 0 ==> {
        &&& read_asks(model, room, replies.drop_last())
        &&& read_call(model, room, replies.drop_last()).step is PollSource
    }
}

/// The bytes of the connection that arrive with these replies.
pub open spec fn payloads(replies: Seq<SourcePoll>) -> Seq<u8>
    decreases replies.len(),
{
    if replies.len() == 0 {
        Seq::empty()
    } else {
        payloads(replies.drop_last()) + crate::tncio::arqmodel::payload(replies.last())
    }
}

/// A read copies bytes in the order in which they were unread and then
/// arrived, and leaves the rest unread.
pub proof fn law_read_is_in_order(model: ArqModel, room: nat, replies: Seq<SourcePoll>)
    ensures
        read_call(model, room, replies).copied + read_call(model, room, replies).model.unread
            == model.unread + payloads(replies),
    decreases replies.len(),
{
    let now = read_call(model, room, replies);
    if replies.len() == 0 {
        lemma_read_takes_from_the_front(model, 0, room);
        assert(now.copied + now.model.unread =~= model.unread + payloads(replies));
    } else {
        let before = read_call(model, room, replies.drop_last());
        let turn = Turn::Read {
            total: before.copied.len(),
            room,
            input: ReadInput::Source(replies.last()),
        };
        law_read_is_in_order(model, room, replies.drop_last());
        lemma_turn_keeps_order(before.model, turn);
        assert(now.copied + now.model.unread =~= before.copied + (turn.copied(before.model)
            + now.model.unread));
        assert(model.unread + payloads(replies) =~= (model.unread + payloads(replies.drop_last()))
            + crate::tncio::arqmodel::payload(replies.last()));
        assert(before.copied + (before.model.unread + turn.arrived()) =~= (before.copied
            + before.model.unread) + turn.arrived());
    }
}

/// What a read returns is what it has done.
///
/// - A count is the number of bytes copied, which are then received. It falls
///   short of the buffer only where nothing is left unread, and is zero only
///   at the end of the stream or for a buffer without room.
/// - A read that has to wait has copied nothing and leaves nothing unread.
/// - The only error is that of a lost connection to the TNC, which closes the
///   connection. The source has said so in its last reply.
/// - A read that asks for a reply has room left, and leaves nothing unread.
pub proof fn law_read_returns_what_it_did(model: ArqModel, room: nat, replies: Seq<SourcePoll>)
    requires
        room <= usize::MAX,
        read_asks(model, room, replies),
    ensures
        read_call(model, room, replies).copied.len() <= room,
        ({
            let now = read_call(model, room, replies);
            match now.step {
                ReadStep::PollSource { total_read } => {
                    &&& total_read == now.copied.len() < room
                    &&& now.model.unread.len() == 0
                    &&& now.model.received == model.received
                },
                ReadStep::Return(Poll::Ready(Ok(count))) => {
                    &&& count == now.copied.len()
                    &&& now.model.received == model.received + count
                    &&& count < room ==> now.model.unread.len() == 0
                    &&& count == 0 ==> now.model.closed_read
                },
                ReadStep::Return(Poll::Pending) => {
                    &&& now.copied.len() == 0
                    &&& now.model.received == model.received
                    &&& room > 0 ==> now.model.unread.len() == 0
                    &&& !now.model.closed_read
                },
                ReadStep::Return(Poll::Ready(Err(err))) => {
                    &&& err.kind == ErrorKind::ConnectionReset
                    &&& err == TncError::connection_reset()
                    &&& now.model.received == model.received
                    &&& now.model.closed_read
                    &&& replies.len() > 0
                    &&& replies.last() matches Poll::Ready(None)
                },
            }
        }),
    decreases replies.len(),
{
    if replies.len() > 0 {
        let before = read_call(model, room, replies.drop_last());
        law_read_returns_what_it_did(model, room, replies.drop_last());
        lemma_source_appends(before.model, replies.last());
    }
}

/// A reader with two buffers gets from two reads what one read into a buffer
/// of both their sizes copies from the bytes at hand.
pub proof fn law_reads_in_pieces(model: ArqModel, first: nat, second: nat)
    ensures
        ({
            let one = model.read_turn(0, first, ReadInput::Start);
            let two = one.model.read_turn(0, second, ReadInput::Start);
            let both = model.read_turn(0, first + second, ReadInput::Start);
            &&& one.copied + two.copied == both.copied
            &&& two.model.unread == both.model.unread
        }),
{
    let one = model.read_turn(0, first, ReadInput::Start);
    let two = one.model.read_turn(0, second, ReadInput::Start);
    let both = model.read_turn(0, first + second, ReadInput::Start);
    assert(one.copied + two.copied =~= both.copied);
    assert(two.model.unread =~= both.model.unread);
}

/// A flush succeeds only once no byte is outstanding. It fails with a broken
/// pipe only on a closed connection, and with a reset only where the sink has
/// failed or the source has ended.
pub proof fn law_flush_returns_what_it_did(model: ArqModel, input: FlushInput)
    ensures
        ({
            let (next, step) = model.flush_turn(input);
            match step {
                FlushStep::Return(Poll::Ready(Ok(_))) => next.outstanding() == 0,
                FlushStep::Return(Poll::Ready(Err(err))) => {
                    ||| err == TncError::broken_pipe() && next.closed_read
                    ||| err == TncError::connection_reset() && {
                        ||| input matches FlushInput::Sink(Poll::Ready(Err(_)))
                        ||| input matches FlushInput::Source(Poll::Ready(None))
                    }
                },
                _ => true,
            }
        }),
{
}

/// An open connection without outstanding bytes is flushed as it stands, and
/// one with outstanding bytes is not.
pub proof fn law_flushed_connection(model: ArqModel)
    requires
        !model.closed_read,
    ensures
        model.flush_turn(FlushInput::Start).0 == model,
        model.flush_turn(FlushInput::Start).1 == FlushStep::Return(Poll::Ready(Ok(())))
            <==> model.outstanding() == 0,
{
}

impl FlushStep {
    /// The input replies to what the flush asks for.
    pub open spec fn answered_by(self, input: FlushInput) -> bool {
        match self {
            FlushStep::PollSink => input is Sink,
            FlushStep::PollSource => input is Source,
            FlushStep::Return(_result) => false,
        }
    }
}

/// A flush, after these replies: the connection, and what the flush asks for.
pub open spec fn flush_call(model: ArqModel, replies: Seq<FlushInput>) -> (ArqModel, FlushStep)
    decreases replies.len(),
{
    if replies.len() == 0 {
        model.flush_turn(FlushInput::Start)
    } else {
        flush_call(model, replies.drop_last()).0.flush_turn(replies.last())
    }
}

/// The flush asks for every one of these replies.
pub open spec fn flush_asks(model: ArqModel, replies: Seq<FlushInput>) -> bool
    decreases replies.len(),
{
    replies.len() > 0 ==> {
        &&& flush_asks(model, replies.drop_last())
        &&& flush_call(model, replies.drop_last()).1.answered_by(replies.last())
    }
}

/// A flush, from its start to its end.
///
/// - It neither makes nor loses a byte, and reads none.
/// - It succeeds only where no byte is outstanding and the connection is open.
/// - It waits, and asks for replies, only while bytes are outstanding and the
///   connection is open.
/// - It fails with a broken pipe only on a closed connection, and with a reset
///   only where the last reply is a failure of the sink or the end of the
///   source.
pub proof fn law_flush_from_start_to_end(model: ArqModel, replies: Seq<FlushInput>)
    requires
        flush_asks(model, replies),
    ensures
        flush_call(model, replies).0.accepted() == model.accepted(),
        flush_call(model, replies).0.received == model.received,
        ({
            let (now, step) = flush_call(model, replies);
            match step {
                FlushStep::Return(Poll::Ready(Ok(_))) => {
                    now.outstanding() == 0 && !now.closed_read
                },
                FlushStep::Return(Poll::Ready(Err(err))) => {
                    ||| err == TncError::broken_pipe() && now.closed_read
                    ||| err == TncError::connection_reset() && replies.len() > 0 && {
                        ||| replies.last() matches FlushInput::Sink(Poll::Ready(Err(_)))
                        ||| replies.last() matches FlushInput::Source(Poll::Ready(None))
                    }
                },
                _ => now.outstanding() > 0 && !now.closed_read,
            }
        }),
    decreases replies.len(),
{
    if replies.len() > 0 {
        law_flush_from_start_to_end(model, replies.drop_last());
    }
}

impl WriteAction {
    /// The input replies to what the write asks for.
    pub open spec fn answered_by(self, input: WriteInput) -> bool {
        match self {
            WriteAction::FlushSink => input is FlushSink,
            WriteAction::FlushSource => input is FlushSource,
            WriteAction::PollReady => input is SinkReady,
            WriteAction::StartSend(_data) => input is SinkSent,
            WriteAction::PollFlush => input is SinkFlushed,
            WriteAction::Return(_result) => false,
        }
    }
}

/// A write of `data`, after these replies: the connection, and what the write
/// asks for.
pub open spec fn write_call(model: ArqModel, data: Seq<u8>, replies: Seq<WriteInput>) -> (
    ArqModel,
    WriteAction,
)
    decreases replies.len(),
{
    if replies.len() == 0 {
        model.write_turn(data, WriteInput::Start)
    } else {
        write_call(model, data, replies.drop_last()).0.write_turn(data, replies.last())
    }
}

/// The write asks for every one of these replies.
pub open spec fn write_asks(model: ArqModel, data: Seq<u8>, replies: Seq<WriteInput>) -> bool
    decreases replies.len(),
{
    replies.len() > 0 ==> {
        &&& write_asks(model, data, replies.drop_last())
        &&& write_call(model, data, replies.drop_last()).1.answered_by(replies.last())
    }
}

/// The sink has taken the data.
pub open spec fn sent(replies: Seq<WriteInput>) -> bool {
    exists|i: int| 0 <= i < replies.len() && (#[trigger] replies[i] matches WriteInput::SinkSent(
        Ok(_),
    ))
}

/// Writes are atomic: either all of the data is accepted, or none of it.
///
/// - What is handed to the sink is all of the data, and once the sink has
///   taken it, nothing is handed to it again.
/// - A count is the length of the data, and all of the data is accepted.
/// - A write that has to wait, or that meets a closed connection, has had
///   nothing accepted.
pub proof fn law_write_is_atomic(model: ArqModel, data: Seq<u8>, replies: Seq<WriteInput>)
    requires
        data.len() <= usize::MAX,
        write_asks(model, data, replies),
    ensures
        write_call(model, data, replies).0.accepted() == model.accepted() + (if sent(replies) {
            data.len()
        } else {
            0
        }),
        write_call(model, data, replies).0.received == model.received,
        match write_call(model, data, replies).1 {
            WriteAction::FlushSink => !sent(replies),
            WriteAction::FlushSource => !sent(replies),
            WriteAction::PollReady => !sent(replies),
            WriteAction::StartSend(bytes) => bytes == data && !sent(replies),
            WriteAction::PollFlush => sent(replies),
            WriteAction::Return(Poll::Ready(Ok(count))) => count == data.len() && sent(replies),
            WriteAction::Return(Poll::Pending) => !sent(replies),
            WriteAction::Return(Poll::Ready(Err(err))) => {
                ||| err == TncError::broken_pipe() && !sent(replies)
                ||| err == TncError::connection_reset()
            },
        },
    decreases replies.len(),
{
    if replies.len() > 0 {
        let earlier = replies.drop_last();
        law_write_is_atomic(model, data, earlier);
        assert(sent(replies) == (sent(earlier) || replies.last() matches WriteInput::SinkSent(
            Ok(_),
        ))) by {
            if sent(earlier) {
                let i = choose|i: int|
                    0 <= i < earlier.len() && (#[trigger] earlier[i] matches WriteInput::SinkSent(
                        Ok(_),
                    ));
                assert(replies[i] == earlier[i]);
            }
            if sent(replies) {
                let i = choose|i: int|
                    0 <= i < replies.len() && (#[trigger] replies[i] matches WriteInput::SinkSent(
                        Ok(_),
                    ));
                if i < earlier.len() {
                    assert(earlier[i] == replies[i]);
                }
            }
        }
    }
}

/// A write hands data to the sink only while no more bytes are outstanding
/// than the high-water mark, so that it never leaves more than that and its
/// own data.
pub proof fn law_high_water_mark(model: ArqModel, data: Seq<u8>, replies: Seq<WriteInput>)
    requires
        write_asks(model, data, replies),
    ensures
        ({
            let (now, step) = write_call(model, data, replies);
            &&& step is StartSend ==> now.outstanding() <= SEND_HWM
            &&& step is PollReady ==> now.outstanding() <= SEND_HWM
            &&& step is PollFlush ==> now.outstanding() <= SEND_HWM + data.len()
            &&& step matches WriteAction::Return(Poll::Ready(Ok(_))) ==> now.outstanding()
                <= SEND_HWM + data.len()
        }),
    decreases replies.len(),
{
    if replies.len() > 0 {
        law_high_water_mark(model, data, replies.drop_last());
    }
}

/// A write that finds no more bytes outstanding than the high-water mark does
/// not look at the source: nothing but the count of staged bytes can change.
pub proof fn law_write_below_the_mark(model: ArqModel, data: Seq<u8>, replies: Seq<WriteInput>)
    requires
        model.outstanding() <= SEND_HWM,
        write_asks(model, data, replies),
    ensures
        forall|i: int|
            0 <= i < replies.len() ==> (#[trigger] replies[i]) !is FlushSource && replies[i]
                !is FlushSink,
        write_call(model, data, replies).1 !is FlushSource,
        write_call(model, data, replies).1 !is FlushSink,
        write_call(model, data, replies).0 == (ArqModel {
            staged: write_call(model, data, replies).0.staged,
            ..model
        }),
    decreases replies.len(),
{
    if replies.len() > 0 {
        let earlier = replies.drop_last();
        law_write_below_the_mark(model, data, earlier);
        assert forall|i: int| 0 <= i < replies.len() implies (#[trigger] replies[i])
            !is FlushSource && replies[i] !is FlushSink by {
            if i < earlier.len() {
                assert(replies[i] == earlier[i]);
            }
        }
    }
}

/// A write on a connection that is closed for writing asks for no reply, so
/// that the sink never gets its data.
pub proof fn law_closed_write_sends_nothing(
    model: ArqModel,
    data: Seq<u8>,
    replies: Seq<WriteInput>,
)
    requires
        model.closed_write,
        write_asks(model, data, replies),
    ensures
        replies.len() == 0,
        write_call(model, data, replies) == (
            model,
            WriteAction::Return(Poll::Ready(Err(TncError::broken_pipe()))),
        ),
    decreases replies.len(),
{
    if replies.len() > 0 {
        law_closed_write_sends_nothing(model, data, replies.drop_last());
    }
}

/// A read on a closed connection asks for no reply: only what was retrieved
/// before is presented.
pub proof fn law_closed_read_asks_nothing(model: ArqModel, room: nat, replies: Seq<SourcePoll>)
    requires
        model.closed_read,
        read_asks(model, room, replies),
    ensures
        replies.len() == 0,
        read_call(model, room, replies).step is Return,
        read_call(model, room, replies).copied == model.unread.take(
            crate::tncio::arqmodel::lesser(model.unread.len(), room) as int,
        ),
    decreases replies.len(),
{
    if replies.len() > 0 {
        law_closed_read_asks_nothing(model, room, replies.drop_last());
    }
}

/// A flush on a closed connection asks for no reply, and fails.
pub proof fn law_closed_flush_asks_nothing(model: ArqModel, replies: Seq<FlushInput>)
    requires
        model.closed_read,
        flush_asks(model, replies),
    ensures
        replies.len() == 0,
        flush_call(model, replies) == (
            model,
            FlushStep::Return(Poll::Ready(Err(TncError::broken_pipe()))),
        ),
    decreases replies.len(),
{
    if replies.len() > 0 {
        law_closed_flush_asks_nothing(model, replies.drop_last());
    }
}

} // verus!
