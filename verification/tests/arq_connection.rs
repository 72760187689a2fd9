use std::collections::VecDeque;
use std::io::Cursor;
use std::pin::Pin;
use std::task::Context;
use std::time::{Duration, Instant};

use bytes::Bytes;
use futures::channel::mpsc;
use futures::sink;
use futures::stream;
use futures::task;
use futures::{Sink, Stream};

use ardop_arq::connectioninfo::{ConnectionInfo, Direction};
use ardop_arq::error::{broken_pipe_err, connection_reset_err, ErrorKind, TncError};
use ardop_arq::protocol::response::ConnectionStateChange;
use ardop_arq::tncdata::{DataIn, DataOut};
use ardop_arq::tncio::arqmodel::{
    FlushInput, FlushStep, Poll, ReadInput, ReadStep, SinkPoll, SourcePoll, WriteInput, WriteStep,
    SEND_HWM,
};
use ardop_arq::tncio::arqstate::{read_from_buffers, ArqState};
use ardop_arq::tncio::dataevent::DataEvent;

fn poll_source<S>(src: &mut S, cx: &mut Context<'_>) -> SourcePoll
where
    S: Stream<Item = DataEvent> + Unpin,
{
    match Pin::new(src).poll_next(cx) {
        std::task::Poll::Ready(item) => Poll::Ready(item),
        std::task::Poll::Pending => Poll::Pending,
    }
}

fn sink_poll<E>(poll: std::task::Poll<Result<(), E>>) -> SinkPoll {
    match poll {
        std::task::Poll::Ready(result) => Poll::Ready(result.map_err(|_err| ())),
        std::task::Poll::Pending => Poll::Pending,
    }
}

fn poll_read<S>(
    arq: &mut ArqState,
    src: &mut S,
    cx: &mut Context<'_>,
    buf: &mut [u8],
) -> Poll<Result<usize, TncError>>
where
    S: Stream<Item = DataEvent> + Unpin,
{
    let mut step = arq.poll_read(0, ReadInput::Start, buf);
    loop {
        match step {
            ReadStep::PollSource { total_read } => {
                let reply = poll_source(src, cx);
                step = arq.poll_read(total_read, ReadInput::Source(reply), buf);
            }
            ReadStep::Return(result) => return result,
        }
    }
}

fn poll_flush<K, S>(
    arq: &mut ArqState,
    dst: &mut K,
    src: &mut S,
    cx: &mut Context<'_>,
) -> Poll<Result<(), TncError>>
where
    K: Sink<DataOut> + Unpin,
    S: Stream<Item = DataEvent> + Unpin,
{
    let mut input = FlushInput::Start;
    loop {
        input = match arq.poll_flush(input) {
            FlushStep::PollSink => FlushInput::Sink(sink_poll(Pin::new(&mut *dst).poll_flush(cx))),
            FlushStep::PollSource => FlushInput::Source(poll_source(src, cx)),
            FlushStep::Return(result) => return result,
        };
    }
}

fn poll_write<K, S>(
    arq: &mut ArqState,
    dst: &mut K,
    src: &mut S,
    cx: &mut Context<'_>,
    buf: &[u8],
) -> Poll<Result<usize, TncError>>
where
    K: Sink<DataOut> + Unpin,
    S: Stream<Item = DataEvent> + Unpin,
{
    let mut input = WriteInput::Start;
    loop {
        input = match arq.poll_write(input, buf) {
            WriteStep::FlushSink => {
                WriteInput::FlushSink(sink_poll(Pin::new(&mut *dst).poll_flush(cx)))
            }
            WriteStep::FlushSource => WriteInput::FlushSource(poll_source(src, cx)),
            WriteStep::PollReady => {
                WriteInput::SinkReady(sink_poll(Pin::new(&mut *dst).poll_ready(cx)))
            }
            WriteStep::StartSend(data) => {
                WriteInput::SinkSent(Pin::new(&mut *dst).start_send(data).map_err(|_err| ()))
            }
            WriteStep::PollFlush => {
                WriteInput::SinkFlushed(sink_poll(Pin::new(&mut *dst).poll_flush(cx)))
            }
            WriteStep::Return(result) => return result,
        };
    }
}

fn new_state() -> ArqState {
    ArqState::new(ConnectionInfo::new(
        "W1AW",
        Some("EM00".to_owned()),
        500,
        Direction::Outgoing("W9ABC".to_owned()),
    ))
}

fn event(change: ConnectionStateChange) -> SourcePoll {
    Poll::Ready(Some(DataEvent::Event(change)))
}

fn arq_data(data: &'static [u8]) -> SourcePoll {
    Poll::Ready(Some(DataEvent::Data(DataIn::ARQ(Bytes::from_static(data)))))
}

// stages `count` bytes
fn stage(arq: &mut ArqState, count: usize) {
    let data = vec![7u8; count];
    assert!(matches!(
        arq.poll_write(WriteInput::SinkSent(Ok(())), &data),
        WriteStep::PollFlush
    ));
}

#[test]
fn test_read_from_buffers() {
    let b1 = Bytes::from(vec![0u8, 1u8, 2u8]);
    let b2 = Bytes::from(vec![]);
    let b3 = Bytes::from(vec![3u8, 4u8, 5u8, 6u8]);

    let mut bufs: VecDeque<Cursor<Bytes>> = VecDeque::with_capacity(3);
    bufs.push_back(Cursor::new(b1));
    bufs.push_back(Cursor::new(b2));
    bufs.push_back(Cursor::new(b3));

    let mut out1 = [0u8; 2usize];
    assert_eq!(2, read_from_buffers(&mut bufs, &mut out1));
    assert_eq!(out1, [0u8, 1u8]);

    let mut out2 = [0u8; 4usize];
    assert_eq!(4, read_from_buffers(&mut bufs, &mut out2));
    assert_eq!(out2, [2u8, 3u8, 4u8, 5u8]);

    assert_eq!(1, read_from_buffers(&mut bufs, &mut out2));
    assert_eq!(out2, [6u8, 3u8, 4u8, 5u8]);

    assert_eq!(0, read_from_buffers(&mut bufs, &mut out2));
    assert_eq!(out2, [6u8, 3u8, 4u8, 5u8]);
}

#[test]
fn test_poll_receive() {
    let mut arq = new_state();

    // stream
    let de = vec![
        DataEvent::Data(DataIn::ARQ(Bytes::from_static(b"HELLO "))),
        DataEvent::Data(DataIn::ARQ(Bytes::from_static(b"WORLD!"))),
        DataEvent::Event(ConnectionStateChange::Closed),
    ];
    let mut instream = stream::iter(de);

    let mut out = [0u8; 8];
    let mut waker = Context::from_waker(task::noop_waker_ref());

    // read first fragment
    match poll_read(&mut arq, &mut instream, &mut waker, &mut out) {
        Poll::Ready(Ok(8)) => assert!(true),
        _ => assert!(false),
    }
    assert_eq!(*b"HELLO WO", out);
    assert!(arq.is_open());
    assert_eq!(8, arq.bytes_received());

    // read second fragment
    match poll_read(&mut arq, &mut instream, &mut waker, &mut out) {
        Poll::Ready(Ok(4)) => assert!(true),
        _ => assert!(false),
    }
    assert_eq!(*b"RLD!", &out[0..4]);
    assert_eq!(false, arq.is_open());
    assert_eq!(12, arq.bytes_received());

    // additional reads are EOF
    match poll_read(&mut arq, &mut instream, &mut waker, &mut out) {
        Poll::Ready(Ok(0)) => assert!(true),
        _ => assert!(false),
    }
}

#[test]
fn test_poll_write() {
    let mut arq = new_state();
    let mut waker = Context::from_waker(task::noop_waker_ref());

    let (evt_wr, mut evt_rd) = mpsc::unbounded();
    let mut data_sink = sink::drain(); // om nom nom

    let res = poll_write(&mut arq, &mut data_sink, &mut evt_rd, &mut waker, b"HELLO");

    // our mock TNC has consumed the bytes... but not transmitted them yet
    match res {
        Poll::Ready(Ok(5)) => assert!(true),
        _ => assert!(false),
    }
    assert_eq!(5, arq.bytes_staged());
    assert_eq!(0, arq.bytes_unacknowledged());
    assert_eq!(0, arq.bytes_transmitted());

    // flushes fail to make progress
    match poll_flush(&mut arq, &mut data_sink, &mut evt_rd, &mut waker) {
        Poll::Pending => assert!(true),
        _ => assert!(false),
    }
    assert_eq!(5, arq.bytes_staged());
    assert_eq!(0, arq.bytes_unacknowledged());
    assert_eq!(0, arq.bytes_transmitted());

    // the tnc accepts the bytes, but hasn't sent any
    evt_wr
        .unbounded_send(DataEvent::Event(ConnectionStateChange::SendBuffer(5)))
        .unwrap();
    match poll_flush(&mut arq, &mut data_sink, &mut evt_rd, &mut waker) {
        Poll::Pending => assert!(true),
        _ => assert!(false),
    }
    assert_eq!(0, arq.bytes_staged());
    assert_eq!(5, arq.bytes_unacknowledged());
    assert_eq!(0, arq.bytes_transmitted());

    // the tnc sends some bytes
    evt_wr
        .unbounded_send(DataEvent::Event(ConnectionStateChange::SendBuffer(3)))
        .unwrap();
    match poll_flush(&mut arq, &mut data_sink, &mut evt_rd, &mut waker) {
        Poll::Pending => assert!(true),
        _ => assert!(false),
    }
    assert_eq!(0, arq.bytes_staged());
    assert_eq!(3, arq.bytes_unacknowledged());
    assert_eq!(2, arq.bytes_transmitted());

    // report all flushed
    evt_wr
        .unbounded_send(DataEvent::Event(ConnectionStateChange::SendBuffer(0)))
        .unwrap();
    match poll_flush(&mut arq, &mut data_sink, &mut evt_rd, &mut waker) {
        Poll::Ready(Ok(())) => assert!(true),
        _ => assert!(false),
    }
    assert_eq!(0, arq.bytes_staged());
    assert_eq!(0, arq.bytes_unacknowledged());
    assert_eq!(5, arq.bytes_transmitted());

    // mark write shutdown... but we haven't received a
    // disconnect confirmation yet, so we're still open
    arq.shutdown_write();
    match poll_flush(&mut arq, &mut data_sink, &mut evt_rd, &mut waker) {
        Poll::Ready(Ok(_o)) => assert!(true),
        _ => assert!(false),
    }
    assert!(arq.is_open());

    // Send confirmation of disconnect. Now we are closed.
    evt_wr
        .unbounded_send(DataEvent::Event(ConnectionStateChange::Closed))
        .unwrap();

    // We're still flushed
    match poll_flush(&mut arq, &mut data_sink, &mut evt_rd, &mut waker) {
        Poll::Ready(Ok(_o)) => assert!(true),
        _ => assert!(false),
    }

    // No more bytes are accepted
    let res = poll_write(&mut arq, &mut data_sink, &mut evt_rd, &mut waker, b"HELLO");
    match res {
        Poll::Ready(Err(_e)) => assert!(true),
        _ => assert!(false),
    }
}

#[test]
fn a_new_connection_is_open_and_empty() {
    let arq = new_state();
    assert!(arq.is_open());
    assert_eq!("W1AW", arq.info().peer_call);
    assert_eq!(Some("EM00".to_owned()), arq.info().peer_grid);
    assert_eq!(500, arq.info().bandwidth);
    assert!(matches!(&arq.info().direction, Direction::Outgoing(call) if call == "W9ABC"));
    assert_eq!(0, arq.bytes_received());
    assert_eq!(0, arq.bytes_transmitted());
    assert_eq!(0, arq.bytes_unacknowledged());
    assert_eq!(0, arq.bytes_staged());
}

#[test]
fn errors_say_what_they_are() {
    assert_eq!(ErrorKind::ConnectionReset, connection_reset_err().kind);
    assert_eq!("Lost connection to ARDOP TNC", connection_reset_err().message);
    assert_eq!(ErrorKind::BrokenPipe, broken_pipe_err().kind);
    assert_eq!(
        "Broken pipe: cannot write to a closed connection",
        broken_pipe_err().message
    );
}

#[test]
fn reads_wait_for_data() {
    let mut arq = new_state();
    let mut out = [0u8; 4];

    // nothing there yet
    assert!(matches!(
        arq.poll_read(0, ReadInput::Start, &mut out),
        ReadStep::PollSource { total_read: 0 }
    ));
    assert!(matches!(
        arq.poll_read(0, ReadInput::Source(Poll::Pending), &mut out),
        ReadStep::Return(Poll::Pending)
    ));

    // broadcasts and events bring no data for a reader
    let fec = Poll::Ready(Some(DataEvent::Data(DataIn::FEC(Bytes::from_static(b"cq")))));
    assert!(matches!(
        arq.poll_read(0, ReadInput::Source(fec), &mut out),
        ReadStep::Return(Poll::Pending)
    ));
    assert!(matches!(
        arq.poll_read(0, ReadInput::Source(event(ConnectionStateChange::Other)), &mut out),
        ReadStep::Return(Poll::Pending)
    ));

    // too little: ask for more, but return what there is
    assert!(matches!(
        arq.poll_read(0, ReadInput::Source(arq_data(b"ab")), &mut out),
        ReadStep::PollSource { total_read: 2 }
    ));
    assert!(matches!(
        arq.poll_read(2, ReadInput::Source(Poll::Pending), &mut out),
        ReadStep::Return(Poll::Ready(Ok(2)))
    ));
    assert_eq!(*b"ab\0\0", out);
    assert_eq!(2, arq.bytes_received());

    // a buffer without room gets nothing, and does not ask
    assert!(matches!(
        arq.poll_read(0, ReadInput::Start, &mut []),
        ReadStep::Return(Poll::Pending)
    ));
}

#[test]
fn reads_in_pieces_are_in_order() {
    let mut arq = new_state();
    let mut whole = Vec::new();
    assert!(matches!(
        arq.poll_flush(FlushInput::Source(arq_data(b"one "))),
        FlushStep::Return(Poll::Ready(Ok(())))
    ));
    assert!(matches!(
        arq.poll_flush(FlushInput::Source(arq_data(b"two three"))),
        FlushStep::Return(Poll::Ready(Ok(())))
    ));
    for room in vec![3, 2, 5, 3] {
        let mut out = vec![0u8; room];
        assert!(matches!(
            arq.poll_read(0, ReadInput::Start, &mut out),
            ReadStep::Return(Poll::Ready(Ok(count))) if count == room
        ));
        whole.extend(out);
    }
    assert_eq!(b"one two three".to_vec(), whole);
    assert_eq!(13, arq.bytes_received());
}

#[test]
fn a_lost_tnc_closes_the_connection() {
    let mut arq = new_state();
    let mut out = [0u8; 4];
    assert!(matches!(
        arq.poll_read(0, ReadInput::Source(Poll::Ready(None)), &mut out),
        ReadStep::Return(Poll::Ready(Err(TncError {
            kind: ErrorKind::ConnectionReset,
            ..
        })))
    ));
    assert!(!arq.is_open());
    assert!(matches!(
        arq.poll_read(0, ReadInput::Start, &mut out),
        ReadStep::Return(Poll::Ready(Ok(0)))
    ));
    assert!(matches!(
        arq.poll_write(WriteInput::Start, b"x"),
        WriteStep::Return(Poll::Ready(Err(TncError {
            kind: ErrorKind::BrokenPipe,
            ..
        })))
    ));
    assert!(matches!(
        arq.poll_flush(FlushInput::Start),
        FlushStep::Return(Poll::Ready(Err(TncError {
            kind: ErrorKind::BrokenPipe,
            ..
        })))
    ));
}

#[test]
fn a_closed_connection_presents_what_it_holds() {
    let mut arq = new_state();
    arq.poll_flush(FlushInput::Source(arq_data(b"tail")));
    arq.shutdown_read();
    assert!(!arq.is_open());
    let mut out = [0u8; 8];
    assert!(matches!(
        arq.poll_read(0, ReadInput::Start, &mut out),
        ReadStep::Return(Poll::Ready(Ok(4)))
    ));
    assert_eq!(*b"tail\0\0\0\0", out);
    assert!(matches!(
        arq.poll_read(0, ReadInput::Start, &mut out),
        ReadStep::Return(Poll::Ready(Ok(0)))
    ));
    assert_eq!(4, arq.bytes_received());
}

#[test]
fn the_time_of_closing_stands() {
    let mut arq = new_state();
    arq.mark_closed_after(Duration::new(75, 5));
    assert_eq!(Duration::new(75, 5), arq.elapsed_time());
    arq.mark_closed_after(Duration::new(80, 0));
    arq.shutdown_read();
    assert_eq!(Duration::new(75, 5), arq.elapsed_time());
}

#[test]
fn time_passes_while_open() {
    let mut arq = new_state();
    let first = arq.elapsed_time();
    let start = Instant::now();
    while start.elapsed() < Duration::from_millis(30) {}
    let second = arq.elapsed_time();
    assert!(second >= first + Duration::from_millis(30));
    arq.shutdown_read();
    let closed = arq.elapsed_time();
    assert!(closed >= second);
    assert_eq!(closed, arq.elapsed_time());
}

#[test]
fn reports_of_the_buffer_move_bytes_forward() {
    let mut arq = new_state();
    let report = |arq: &mut ArqState, size: u64| {
        arq.poll_flush(FlushInput::Source(event(ConnectionStateChange::SendBuffer(size))));
        (
            arq.bytes_staged(),
            arq.bytes_unacknowledged(),
            arq.bytes_transmitted(),
        )
    };
    stage(&mut arq, 10);
    assert_eq!((6, 4, 0), report(&mut arq, 4));
    // the same again
    assert_eq!((6, 4, 0), report(&mut arq, 4));
    // more than is staged
    assert_eq!((0, 10, 0), report(&mut arq, 25));
    assert_eq!((0, 5, 5), report(&mut arq, 20));
    // more than is unacknowledged
    assert_eq!((0, 0, 10), report(&mut arq, 2));
    stage(&mut arq, 3);
    assert_eq!((0, 3, 10), report(&mut arq, 5));
    assert_eq!((0, 0, 13), report(&mut arq, 0));
}

#[test]
fn flushes_ask_for_what_they_need() {
    let mut arq = new_state();
    stage(&mut arq, 2);
    assert!(matches!(
        arq.poll_flush(FlushInput::Start),
        FlushStep::PollSink
    ));
    assert!(matches!(
        arq.poll_flush(FlushInput::Sink(Poll::Pending)),
        FlushStep::Return(Poll::Pending)
    ));
    assert!(matches!(
        arq.poll_flush(FlushInput::Sink(Poll::Ready(Err(())))),
        FlushStep::Return(Poll::Ready(Err(TncError {
            kind: ErrorKind::ConnectionReset,
            ..
        })))
    ));
    assert!(matches!(
        arq.poll_flush(FlushInput::Sink(Poll::Ready(Ok(())))),
        FlushStep::PollSource
    ));
    assert!(matches!(
        arq.poll_flush(FlushInput::Source(event(ConnectionStateChange::SendBuffer(2)))),
        FlushStep::PollSource
    ));
    // the peer goes away with bytes outstanding
    assert!(matches!(
        arq.poll_flush(FlushInput::Source(event(ConnectionStateChange::Closed))),
        FlushStep::Return(Poll::Ready(Err(TncError {
            kind: ErrorKind::BrokenPipe,
            ..
        })))
    ));
    assert!(matches!(
        arq.poll_flush(FlushInput::Source(Poll::Ready(None))),
        FlushStep::Return(Poll::Ready(Err(TncError {
            kind: ErrorKind::ConnectionReset,
            ..
        })))
    ));
}

#[test]
fn writes_hand_over_all_or_nothing() {
    let mut arq = new_state();
    let data = b"all of it, and more than fits in a small buffer";
    assert!(matches!(
        arq.poll_write(WriteInput::Start, data),
        WriteStep::PollReady
    ));
    assert!(matches!(
        arq.poll_write(WriteInput::SinkReady(Poll::Pending), data),
        WriteStep::Return(Poll::Pending)
    ));
    assert!(matches!(
        arq.poll_write(WriteInput::SinkReady(Poll::Ready(Err(()))), data),
        WriteStep::Return(Poll::Ready(Err(TncError {
            kind: ErrorKind::ConnectionReset,
            ..
        })))
    ));
    match arq.poll_write(WriteInput::SinkReady(Poll::Ready(Ok(()))), data) {
        WriteStep::StartSend(bytes) => assert_eq!(&data[..], &bytes[..]),
        _ => panic!("nothing to send"),
    }
    assert!(matches!(
        arq.poll_write(WriteInput::SinkSent(Err(())), data),
        WriteStep::Return(Poll::Ready(Err(TncError {
            kind: ErrorKind::ConnectionReset,
            ..
        })))
    ));
    assert_eq!(0, arq.bytes_staged());
    assert!(matches!(
        arq.poll_write(WriteInput::SinkSent(Ok(())), data),
        WriteStep::PollFlush
    ));
    assert_eq!(data.len() as u64, arq.bytes_staged());
    assert!(matches!(
        arq.poll_write(WriteInput::SinkFlushed(Poll::Pending), data),
        WriteStep::Return(Poll::Ready(Ok(count))) if count == data.len()
    ));
    assert!(matches!(
        arq.poll_write(WriteInput::SinkFlushed(Poll::Ready(Ok(()))), data),
        WriteStep::Return(Poll::Ready(Ok(count))) if count == data.len()
    ));
    assert!(matches!(
        arq.poll_write(WriteInput::SinkFlushed(Poll::Ready(Err(()))), data),
        WriteStep::Return(Poll::Ready(Err(TncError {
            kind: ErrorKind::ConnectionReset,
            ..
        })))
    ));
}

#[test]
fn writes_wait_above_the_high_water_mark() {
    let mut arq = new_state();
    assert_eq!(65535, SEND_HWM);

    // at the mark
    stage(&mut arq, 65535);
    assert!(matches!(
        arq.poll_write(WriteInput::Start, b"x"),
        WriteStep::PollReady
    ));

    // above it
    stage(&mut arq, 1);
    assert!(matches!(
        arq.poll_write(WriteInput::Start, b"x"),
        WriteStep::FlushSink
    ));
    assert!(matches!(
        arq.poll_write(WriteInput::FlushSink(Poll::Ready(Ok(()))), b"x"),
        WriteStep::FlushSource
    ));
    assert!(matches!(
        arq.poll_write(
            WriteInput::FlushSource(event(ConnectionStateChange::SendBuffer(65536))),
            b"x"
        ),
        WriteStep::FlushSource
    ));
    assert!(matches!(
        arq.poll_write(WriteInput::FlushSource(Poll::Pending), b"x"),
        WriteStep::Return(Poll::Pending)
    ));
    // not before all is flushed
    assert!(matches!(
        arq.poll_write(
            WriteInput::FlushSource(event(ConnectionStateChange::SendBuffer(1))),
            b"x"
        ),
        WriteStep::FlushSource
    ));
    assert!(matches!(
        arq.poll_write(
            WriteInput::FlushSource(event(ConnectionStateChange::SendBuffer(0))),
            b"x"
        ),
        WriteStep::PollReady
    ));
    assert_eq!(65536, arq.bytes_transmitted());
}

#[test]
fn the_status_shows_time_and_mark() {
    let mut arq = new_state();
    let mut out = [0u8; 3];
    arq.poll_read(0, ReadInput::Source(arq_data(b"abc")), &mut out);
    stage(&mut arq, 2);
    arq.poll_flush(FlushInput::Source(event(ConnectionStateChange::SendBuffer(2))));
    arq.poll_flush(FlushInput::Source(event(ConnectionStateChange::SendBuffer(1))));

    let open = arq.status(125);
    assert_eq!("+", open.open_mark);
    assert_eq!((2, 5), (open.minutes, open.seconds));
    assert_eq!((3, 1), (open.bytes_received, open.bytes_transmitted));

    arq.shutdown_read();
    let closed = arq.status(59);
    assert_eq!("=", closed.open_mark);
    assert_eq!((0, 59), (closed.minutes, closed.seconds));
}

#[test]
fn spent_buffers_leave_the_queue() {
    let queue = || {
        let mut bufs: VecDeque<Cursor<Bytes>> = VecDeque::new();
        bufs.push_back(Cursor::new(Bytes::from(vec![])));
        bufs.push_back(Cursor::new(Bytes::from(vec![1u8, 2])));
        bufs.push_back(Cursor::new(Bytes::from(vec![3u8])));
        bufs
    };

    // no room: nothing is touched
    let mut bufs = queue();
    assert_eq!(0, read_from_buffers(&mut bufs, &mut []));
    assert_eq!(3, bufs.len());

    // a buffer that fills the destination stays, even without a byte left
    let mut two = [0u8; 2];
    assert_eq!(2, read_from_buffers(&mut bufs, &mut two));
    assert_eq!([1u8, 2], two);
    assert_eq!(2, bufs.len());
    assert_eq!(2, bufs[0].position());
    assert_eq!(0, bufs[1].position());

    // more room than bytes: the queue is empty
    let mut bufs = queue();
    let mut four = [9u8; 4];
    assert_eq!(3, read_from_buffers(&mut bufs, &mut four));
    assert_eq!([1u8, 2, 3, 9], four);
    assert!(bufs.is_empty());
}

#[test]
fn a_report_on_the_way_does_not_matter() {
    let reports = |sizes: Vec<u64>| {
        let mut arq = new_state();
        stage(&mut arq, 10);
        for size in sizes {
            arq.poll_flush(FlushInput::Source(event(ConnectionStateChange::SendBuffer(size))));
        }
        (
            arq.bytes_staged(),
            arq.bytes_unacknowledged(),
            arq.bytes_transmitted(),
        )
    };
    assert_eq!((2, 8, 0), reports(vec![8]));
    assert_eq!((2, 8, 0), reports(vec![3, 8]));
    assert_eq!((2, 1, 7), reports(vec![8, 1]));
    assert_eq!((2, 1, 7), reports(vec![8, 5, 1]));
}

#[test]
fn events_wake_a_flush_and_not_a_read() {
    let mut arq = new_state();
    stage(&mut arq, 1);
    let mut out = [0u8; 1];
    assert!(matches!(
        arq.poll_read(0, ReadInput::Source(event(ConnectionStateChange::SendBuffer(1))), &mut out),
        ReadStep::Return(Poll::Pending)
    ));
    assert_eq!((0, 1), (arq.bytes_staged(), arq.bytes_unacknowledged()));
    assert!(matches!(
        arq.poll_flush(FlushInput::Source(event(ConnectionStateChange::Other))),
        FlushStep::PollSource
    ));
    assert!(matches!(
        arq.poll_flush(FlushInput::Source(event(ConnectionStateChange::SendBuffer(0)))),
        FlushStep::Return(Poll::Ready(Ok(())))
    ));
}

#[test]
fn a_session_returns_what_arrived() {
    let mut arq = new_state();
    let mut cx = Context::from_waker(task::noop_waker_ref());
    let (evt_wr, mut evt_rd) = mpsc::unbounded();
    let mut data_sink = sink::drain();
    let mut got = Vec::new();

    let data = |bytes: &'static [u8]| DataEvent::Data(DataIn::ARQ(Bytes::from_static(bytes)));
    evt_wr.unbounded_send(data(b"first ")).unwrap();
    evt_wr.unbounded_send(data(b"second ")).unwrap();
    evt_wr
        .unbounded_send(DataEvent::Event(ConnectionStateChange::SendBuffer(3)))
        .unwrap();
    evt_wr.unbounded_send(data(b"third")).unwrap();

    let res = poll_write(&mut arq, &mut data_sink, &mut evt_rd, &mut cx, b"out");
    assert!(matches!(res, Poll::Ready(Ok(3))));
    // data arrives while a flush waits
    assert!(matches!(
        poll_flush(&mut arq, &mut data_sink, &mut evt_rd, &mut cx),
        Poll::Pending
    ));
    assert_eq!((0, 3), (arq.bytes_staged(), arq.bytes_unacknowledged()));
    evt_wr
        .unbounded_send(DataEvent::Event(ConnectionStateChange::Closed))
        .unwrap();
    loop {
        let mut out = [0u8; 5];
        match poll_read(&mut arq, &mut evt_rd, &mut cx, &mut out) {
            Poll::Ready(Ok(0)) => break,
            Poll::Ready(Ok(count)) => got.extend_from_slice(&out[..count]),
            _ => panic!("no data"),
        }
    }
    assert_eq!(b"first second third".to_vec(), got);
    assert_eq!(18, arq.bytes_received());
    assert_eq!((0, 3, 0), {
        (
            arq.bytes_staged(),
            arq.bytes_unacknowledged(),
            arq.bytes_transmitted(),
        )
    });
    assert!(matches!(
        poll_flush(&mut arq, &mut data_sink, &mut evt_rd, &mut cx),
        Poll::Ready(Err(TncError {
            kind: ErrorKind::BrokenPipe,
            ..
        }))
    ));
}

#[test]
fn the_current_status_shows_the_time_of_closing() {
    let mut arq = new_state();
    let open = arq.current_status();
    assert_eq!("+", open.open_mark);
    assert_eq!(0, open.minutes);

    arq.mark_closed_after(Duration::new(3725, 999_999_999));
    let closed = arq.current_status();
    assert_eq!("=", closed.open_mark);
    assert_eq!((62, 5), (closed.minutes, closed.seconds));
    assert_eq!((0, 0), (closed.bytes_received, closed.bytes_transmitted));
}

#[test]
fn only_some_turns_close_a_connection() {
    let mut arq = new_state();
    arq.shutdown_write();
    arq.handle_event(ConnectionStateChange::Other);
    arq.handle_event(ConnectionStateChange::SendBuffer(4));
    arq.poll_flush(FlushInput::Sink(Poll::Ready(Err(()))));
    arq.poll_flush(FlushInput::Source(arq_data(b"x")));
    assert!(arq.is_open());

    let mut by_event = new_state();
    by_event.handle_event(ConnectionStateChange::Closed);
    assert!(!by_event.is_open());

    let mut by_loss = new_state();
    assert!(matches!(
        by_loss.poll_write(WriteInput::FlushSource(Poll::Ready(None)), b"x"),
        WriteStep::Return(Poll::Ready(Err(TncError {
            kind: ErrorKind::ConnectionReset,
            ..
        })))
    ));
    assert!(!by_loss.is_open());
}

#[test]
fn a_reply_does_the_same_for_either_caller() {
    for data_only in vec![true, false] {
        let mut arq = new_state();
        stage(&mut arq, 2);
        let waits = arq.poll_next_dataevent(event(ConnectionStateChange::SendBuffer(2)), data_only);
        if data_only {
            assert!(matches!(waits, Poll::Pending));
        } else {
            assert!(matches!(waits, Poll::Ready(Ok(()))));
        }
        assert_eq!((0, 2), (arq.bytes_staged(), arq.bytes_unacknowledged()));
        assert!(matches!(
            arq.poll_next_dataevent(arq_data(b"x"), data_only),
            Poll::Ready(Ok(()))
        ));
        assert!(matches!(
            arq.poll_next_dataevent(Poll::Pending, data_only),
            Poll::Pending
        ));
        assert!(matches!(
            arq.poll_next_dataevent(Poll::Ready(None), data_only),
            Poll::Ready(Err(TncError {
                kind: ErrorKind::ConnectionReset,
                ..
            }))
        ));
    }
}
