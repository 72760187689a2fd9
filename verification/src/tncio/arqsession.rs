//! What holds of a connection over any number of calls
//!
//! A *session* is a run of reads, flushes, writes and shutdowns, each from its
//! start to its end, with the replies that it asked for.

use vstd::prelude::*;

use crate::connectioninfo::ConnectionInfo;
use crate::error::TncError;
use crate::tncio::arqmodel::{
    ArqModel, FlushInput, FlushStep, Poll, ReadInput, ReadStep, SourcePoll, WriteAction, WriteInput,
};

verus! {

/// A call, with the replies that it has had.
pub enum Call {
    /// A read into a buffer of `room` bytes.
    Read { room: nat, replies: Seq<SourcePoll> },
    /// A flush.
    Flush(Seq<FlushInput>),
    /// A write of these bytes.
    Write(Seq<u8>, Seq<WriteInput>),
    /// A shutdown for reading and writing.
    ShutdownRead,
    /// A shutdown for writing.
    ShutdownWrite,
}

/// The bytes of the connection that arrive while a flush runs.
pub open spec fn flush_payloads(replies: Seq<FlushInput>) -> Seq<u8>
    decreases replies.len(),
{
    if replies.len() == 0 {
        Seq::empty()
    } else {
        flush_payloads(replies.drop_last()) + match replies.last() {
            FlushInput::Source(reply) => crate::tncio::arqmodel::payload(reply),
            _ => Seq::empty(),
        }
    }
}

/// The bytes of the connection that arrive while a write runs.
pub open spec fn write_payloads(replies: Seq<WriteInput>) -> Seq<u8>
    decreases replies.len(),
{
    if replies.len() == 0 {
        Seq::empty()
    } else {
        write_payloads(replies.drop_last()) + match replies.last() {
            WriteInput::FlushSource(reply) => crate::tncio::arqmodel::payload(reply),
            _ => Seq::empty(),
        }
    }
}

impl Call {
    /// The call asks for its replies, and is over with the last of them.
    pub open spec fn complete(self, model: ArqModel) -> bool {
        match self {
            Call::Read { room, replies } => {
                &&& room <= usize::MAX
                &&& crate::tncio::arqlaws::read_asks(model, room, replies)
                &&& crate::tncio::arqlaws::read_call(model, room, replies).step is Return
            },
            Call::Flush(replies) => {
                &&& crate::tncio::arqlaws::flush_asks(model, replies)
                &&& crate::tncio::arqlaws::flush_call(model, replies).1 is Return
            },
            Call::Write(data, replies) => {
                &&& data.len() <= usize::MAX
                &&& crate::tncio::arqlaws::write_asks(model, data, replies)
                &&& crate::tncio::arqlaws::write_call(model, data, replies).1 is Return
            },
            _ => true,
        }
    }

    /// The connection after the call.
    pub open spec fn after(self, model: ArqModel) -> ArqModel {
        match self {
            Call::Read { room, replies } => {
                crate::tncio::arqlaws::read_call(model, room, replies).model
            },
            Call::Flush(replies) => crate::tncio::arqlaws::flush_call(model, replies).0,
            Call::Write(data, replies) => {
                crate::tncio::arqlaws::write_call(model, data, replies).0
            },
            Call::ShutdownRead => model.closed(),
            Call::ShutdownWrite => model.closed_for_writing(),
        }
    }

    /// The call is a read that returns an error.
    pub open spec fn failed_read(self, model: ArqModel) -> bool {
        match self {
            Call::Read { room, replies } => {
                crate::tncio::arqlaws::read_call(model, room, replies).step matches ReadStep::Return(
                    Poll::Ready(Err(_)),
                )
            },
            _ => false,
        }
    }

    /// The bytes that a reader gets from the call: as many as it returns the
    /// count of, from the start of its buffer.
    pub open spec fn returned(self, model: ArqModel) -> Seq<u8> {
        match self {
            Call::Read { room, replies } => {
                let end = crate::tncio::arqlaws::read_call(model, room, replies);
                match end.step {
                    ReadStep::Return(Poll::Ready(Ok(count))) => end.copied.take(count as int),
                    _ => Seq::empty(),
                }
            },
            _ => Seq::empty(),
        }
    }

    /// The count that the call returns, if it is a read that returns one.
    pub open spec fn count(self, model: ArqModel) -> nat {
        match self {
            Call::Read { room, replies } => match crate::tncio::arqlaws::read_call(
                model,
                room,
                replies,
            ).step {
                ReadStep::Return(Poll::Ready(Ok(count))) => count as nat,
                _ => 0,
            },
            _ => 0,
        }
    }

    /// The bytes of the connection that arrive while the call runs.
    pub open spec fn arrived(self) -> Seq<u8> {
        match self {
            Call::Read { room, replies } => crate::tncio::arqlaws::payloads(replies),
            Call::Flush(replies) => flush_payloads(replies),
            Call::Write(_data, replies) => write_payloads(replies),
            _ => Seq::empty(),
        }
    }

    /// How many bytes the sink takes from the call.
    pub open spec fn sent(self) -> nat {
        match self {
            Call::Write(data, replies) => if crate::tncio::arqlaws::sent(replies) {
                data.len()
            } else {
                0
            },
            _ => 0,
        }
    }
}

impl ArqModel {
    /// The connection after a session.
    pub open spec fn after_session(self, calls: Seq<Call>) -> ArqModel
        decreases calls.len(),
    {
        if calls.len() == 0 {
            self
        } else {
            calls.last().after(self.after_session(calls.drop_last()))
        }
    }

    /// Every call of the session is complete.
    pub open spec fn complete_session(self, calls: Seq<Call>) -> bool
        decreases calls.len(),
    {
        calls.len() > 0 ==> {
            &&& self.complete_session(calls.drop_last())
            &&& calls.last().complete(self.after_session(calls.drop_last()))
        }
    }

    /// Some read of the session returns an error.
    pub open spec fn has_failed_read(self, calls: Seq<Call>) -> bool
        decreases calls.len(),
    {
        calls.len() > 0 && {
            ||| self.has_failed_read(calls.drop_last())
            ||| calls.last().failed_read(self.after_session(calls.drop_last()))
        }
    }

    /// The sum of the counts that the reads of a session return.
    pub open spec fn session_count(self, calls: Seq<Call>) -> nat
        decreases calls.len(),
    {
        if calls.len() == 0 {
            0
        } else {
            self.session_count(calls.drop_last()) + calls.last().count(
                self.after_session(calls.drop_last()),
            )
        }
    }

    /// The bytes that readers get from a session.
    pub open spec fn session_returned(self, calls: Seq<Call>) -> Seq<u8>
        decreases calls.len(),
    {
        if calls.len() == 0 {
            Seq::empty()
        } else {
            self.session_returned(calls.drop_last()) + calls.last().returned(
                self.after_session(calls.drop_last()),
            )
        }
    }
}

/// The bytes of the connection that arrive over a session.
pub open spec fn session_arrived(calls: Seq<Call>) -> Seq<u8>
    decreases calls.len(),
{
    if calls.len() == 0 {
        Seq::empty()
    } else {
        session_arrived(calls.drop_last()) + calls.last().arrived()
    }
}

/// How many bytes the sink takes over a session.
pub open spec fn session_sent(calls: Seq<Call>) -> nat
    decreases calls.len(),
{
    if calls.len() == 0 {
        0
    } else {
        session_sent(calls.drop_last()) + calls.last().sent()
    }
}

/// What arrives while a flush runs is unread behind what was unread before.
proof fn lemma_flush_appends(model: ArqModel, replies: Seq<FlushInput>)
    ensures
        crate::tncio::arqlaws::flush_call(model, replies).0.unread == model.unread
            + flush_payloads(replies),
    decreases replies.len(),
{
    if replies.len() > 0 {
        let before = crate::tncio::arqlaws::flush_call(model, replies.drop_last()).0;
        lemma_flush_appends(model, replies.drop_last());
        if let FlushInput::Source(reply) = replies.last() {
            crate::tncio::arqlaws::lemma_source_appends(before, reply);
        }
    }
    assert(crate::tncio::arqlaws::flush_call(model, replies).0.unread =~= model.unread
        + flush_payloads(replies));
}

/// What arrives while a write runs is unread behind what was unread before.
proof fn lemma_write_appends(model: ArqModel, data: Seq<u8>, replies: Seq<WriteInput>)
    ensures
        crate::tncio::arqlaws::write_call(model, data, replies).0.unread == model.unread
            + write_payloads(replies),
    decreases replies.len(),
{
    if replies.len() > 0 {
        let before = crate::tncio::arqlaws::write_call(model, data, replies.drop_last()).0;
        lemma_write_appends(model, data, replies.drop_last());
        if let WriteInput::FlushSource(reply) = replies.last() {
            crate::tncio::arqlaws::lemma_source_appends(before, reply);
        }
    }
    assert(crate::tncio::arqlaws::write_call(model, data, replies).0.unread =~= model.unread
        + write_payloads(replies));
}

/// A single call neither loses nor reorders bytes, unless it is a read that
/// fails.
proof fn lemma_call_keeps_order(model: ArqModel, call: Call)
    requires
        call.complete(model),
        !call.failed_read(model),
    ensures
        call.returned(model) + call.after(model).unread == model.unread + call.arrived(),
{
    match call {
        Call::Read { room, replies } => {
            let end = crate::tncio::arqlaws::read_call(model, room, replies);
            crate::tncio::arqlaws::law_read_is_in_order(model, room, replies);
            crate::tncio::arqlaws::law_read_returns_what_it_did(model, room, replies);
            assert(call.returned(model) =~= end.copied);
        },
        Call::Flush(replies) => {
            lemma_flush_appends(model, replies);
        },
        Call::Write(data, replies) => {
            lemma_write_appends(model, data, replies);
        },
        _ => {},
    }
    assert(call.returned(model) + call.after(model).unread =~= model.unread + call.arrived());
}

/// What is taken from the front and what is added behind, in two goes.
proof fn lemma_join(
    taken: Seq<u8>,
    held: Seq<u8>,
    first: Seq<u8>,
    added: Seq<u8>,
    taken_next: Seq<u8>,
    held_next: Seq<u8>,
    added_next: Seq<u8>,
)
    requires
        taken + held == first + added,
        taken_next + held_next == held + added_next,
    ensures
        (taken + taken_next) + held_next == first + (added + added_next),
{
    assert((taken + taken_next) + held_next =~= taken + (taken_next + held_next));
    assert(taken + (held + added_next) =~= (taken + held) + added_next);
    assert((first + added) + added_next =~= first + (added + added_next));
}

/// Readers get the bytes of the connection as they arrived, whatever the sizes
/// of their buffers and whichever call was running when a byte arrived: what
/// reads have returned, followed by what is unread, is what was unread at
/// first, followed by what has arrived. A read that fails can take bytes with
/// it, so that there is none in the session.
pub proof fn law_session_returns_what_arrived(model: ArqModel, calls: Seq<Call>)
    requires
        model.complete_session(calls),
        !model.has_failed_read(calls),
    ensures
        model.session_returned(calls) + model.after_session(calls).unread == model.unread
            + session_arrived(calls),
    decreases calls.len(),
{
    let returned = model.session_returned(calls);
    let after = model.after_session(calls);
    if calls.len() > 0 {
        let earlier = calls.drop_last();
        let before = model.after_session(earlier);
        let call = calls.last();
        law_session_returns_what_arrived(model, earlier);
        lemma_call_keeps_order(before, call);
        lemma_join(
            model.session_returned(earlier),
            before.unread,
            model.unread,
            session_arrived(earlier),
            call.returned(before),
            after.unread,
            call.arrived(),
        );
    } else {
        assert(returned + after.unread =~= model.unread + session_arrived(calls));
    }
}

/// On a new connection, what reads have returned is the first part of what has
/// arrived, and the rest of that is unread.
pub proof fn law_new_connection_returns_what_arrived(info: ConnectionInfo, calls: Seq<Call>)
    requires
        ArqModel::opened(info).complete_session(calls),
        !ArqModel::opened(info).has_failed_read(calls),
    ensures
        ({
            let returned = ArqModel::opened(info).session_returned(calls);
            &&& returned.len() <= session_arrived(calls).len()
            &&& returned == session_arrived(calls).take(returned.len() as int)
            &&& ArqModel::opened(info).after_session(calls).unread == session_arrived(calls).skip(
                returned.len() as int,
            )
        }),
{
    let model = ArqModel::opened(info);
    let returned = model.session_returned(calls);
    let unread = model.after_session(calls).unread;
    let arrived = session_arrived(calls);
    law_session_returns_what_arrived(model, calls);
    assert(model.unread + arrived =~= arrived);
    assert(returned + unread == arrived);
    assert((returned + unread).take(returned.len() as int) =~= returned);
    assert((returned + unread).skip(returned.len() as int) =~= unread);
}

/// The bytes staged, unacknowledged and transmitted are together those at
/// first and all that the sink has taken since; on a new connection, all that
/// the sink has ever taken.
pub proof fn law_session_accounts_for_what_was_sent(model: ArqModel, calls: Seq<Call>)
    requires
        model.complete_session(calls),
    ensures
        model.after_session(calls).accepted() == model.accepted() + session_sent(calls),
    decreases calls.len(),
{
    if calls.len() > 0 {
        let before = model.after_session(calls.drop_last());
        law_session_accounts_for_what_was_sent(model, calls.drop_last());
        match calls.last() {
            Call::Read { room, replies } => {
                lemma_read_keeps_sum(before, room, replies);
            },
            Call::Flush(replies) => {
                crate::tncio::arqlaws::law_flush_from_start_to_end(before, replies);
            },
            Call::Write(data, replies) => {
                crate::tncio::arqlaws::law_write_is_atomic(before, data, replies);
            },
            _ => {},
        }
    }
}

/// The count of bytes received grows by the sum of the counts that reads
/// return, which is the number of bytes that readers get. Flushes, writes and
/// shutdowns, reads that have to wait and reads that fail leave it as it is.
pub proof fn law_session_counts_what_it_returned(model: ArqModel, calls: Seq<Call>)
    requires
        model.complete_session(calls),
    ensures
        model.after_session(calls).received == model.received + model.session_count(calls),
        model.session_count(calls) == model.session_returned(calls).len(),
    decreases calls.len(),
{
    if calls.len() > 0 {
        let before = model.after_session(calls.drop_last());
        law_session_counts_what_it_returned(model, calls.drop_last());
        match calls.last() {
            Call::Read { room, replies } => {
                crate::tncio::arqlaws::law_read_returns_what_it_did(before, room, replies);
            },
            Call::Flush(replies) => {
                crate::tncio::arqlaws::law_flush_from_start_to_end(before, replies);
            },
            Call::Write(data, replies) => {
                crate::tncio::arqlaws::law_write_is_atomic(before, data, replies);
            },
            _ => {},
        }
    }
}

/// A read neither makes nor loses a byte that was written.
proof fn lemma_read_keeps_sum(model: ArqModel, room: nat, replies: Seq<SourcePoll>)
    ensures
        crate::tncio::arqlaws::read_call(model, room, replies).model.accepted()
            == model.accepted(),
    decreases replies.len(),
{
    if replies.len() > 0 {
        lemma_read_keeps_sum(model, room, replies.drop_last());
    }
}

/// A shutdown for reading changes no count, no unread byte and no metadata.
/// From then on the connection is closed, whatever is called:
///
/// - nothing arrives any more, and nothing is sent;
/// - reads return the bytes that were unread, in order, then a count of zero;
/// - writes and flushes fail with a broken pipe.
pub proof fn law_after_shutdown(model: ArqModel, calls: Seq<Call>, room: nat, data: Seq<u8>)
    requires
        model.closed().complete_session(calls),
        room <= usize::MAX,
    ensures
        model.closed() == (ArqModel { closed_read: true, closed_write: true, ..model }),
        session_arrived(calls).len() == 0,
        session_sent(calls) == 0,
        !model.closed().has_failed_read(calls),
        ({
            let later = model.closed().after_session(calls);
            let returned = model.closed().session_returned(calls);
            let read = later.read_turn(0, room, ReadInput::Start);
            let count = crate::tncio::arqmodel::lesser(later.unread.len(), room);
            &&& returned + later.unread == model.unread
            &&& later == (ArqModel {
                unread: later.unread,
                received: model.received + returned.len(),
                ..model.closed()
            })
            &&& read.step == ReadStep::Return(Poll::Ready(Ok(count as usize)))
            &&& read.copied == later.unread.take(count as int)
            &&& later.flush_turn(FlushInput::Start).1 == FlushStep::Return(
                Poll::Ready(Err(TncError::broken_pipe())),
            )
            &&& later.write_turn(data, WriteInput::Start).1 == WriteAction::Return(
                Poll::Ready(Err(TncError::broken_pipe())),
            )
        }),
    decreases calls.len(),
{
    let shut = model.closed();
    let later = shut.after_session(calls);
    let returned = shut.session_returned(calls);
    if calls.len() > 0 {
        let earlier = calls.drop_last();
        let before = shut.after_session(earlier);
        law_after_shutdown(model, earlier, room, data);
        match calls.last() {
            Call::Read { room: size, replies } => {
                let end = crate::tncio::arqlaws::read_call(before, size, replies);
                crate::tncio::arqlaws::law_closed_read_asks_nothing(before, size, replies);
                crate::tncio::arqlaws::law_read_returns_what_it_did(before, size, replies);
                assert(calls.last().returned(before) =~= end.copied);
                assert(end.copied + end.model.unread =~= before.unread);
                assert(returned + later.unread =~= shut.session_returned(earlier) + before.unread);
            },
            Call::Flush(replies) => {
                crate::tncio::arqlaws::law_closed_flush_asks_nothing(before, replies);
                assert(returned =~= shut.session_returned(earlier));
            },
            Call::Write(bytes, replies) => {
                crate::tncio::arqlaws::law_closed_write_sends_nothing(before, bytes, replies);
                assert(returned =~= shut.session_returned(earlier));
            },
            _ => {
                assert(returned =~= shut.session_returned(earlier));
            },
        }
    } else {
        assert(returned + later.unread =~= model.unread);
    }
}

} // verus!
