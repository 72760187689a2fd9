use std::cell::RefCell;
use std::io;
use std::str;

use bytes::BytesMut;
use futures::executor;
use futures::io::Cursor;
use futures::{SinkExt, StreamExt};
use futures_codec::{Decoder, Encoder, Framed};

use ardop_arq::framing::control::TncControlFraming;

#[derive(Debug, PartialEq)]
enum Event {
    PENDING,
    CANCELPENDING,
}

#[derive(Debug, PartialEq)]
enum Response {
    Event(Event),
}

// Two of the lines that a TNC sends, each ended by a carriage return.
fn parse(head: &[u8]) -> (usize, Option<Response>) {
    for (line, event) in vec![
        (&b"PENDING\r"[..], Event::PENDING),
        (&b"CANCELPENDING\r"[..], Event::CANCELPENDING),
    ] {
        if head.starts_with(line) {
            return (line.len(), Some(Response::Event(event)));
        }
    }
    (0, None)
}

struct Codec(TncControlFraming);

impl Encoder for Codec {
    type Item = String;
    type Error = io::Error;

    fn encode(&mut self, item: String, dst: &mut BytesMut) -> Result<(), io::Error> {
        assert!(self.0.encode(item, dst).is_ok());
        Ok(())
    }
}

impl Decoder for Codec {
    type Item = Response;
    type Error = io::Error;

    fn decode(&mut self, src: &mut BytesMut) -> Result<Option<Response>, io::Error> {
        Ok(self.0.decode(src, parse).unwrap())
    }
}

#[test]
fn test_encode_decode() {
    let words = b"PENDING\rCANCELPENDING\r".to_vec();
    let curs = Cursor::new(words);
    let mut framer = Framed::new(curs, Codec(TncControlFraming::new()));

    executor::block_on(async {
        let e1 = framer.next().await;
        assert_eq!(Response::Event(Event::PENDING), e1.unwrap().unwrap());

        let e2 = framer.next().await;
        assert_eq!(Response::Event(Event::CANCELPENDING), e2.unwrap().unwrap());

        let e3 = framer.next().await;
        assert!(e3.is_none());
    });

    let curs = Cursor::new(vec![0u8; 24]);
    let mut framer = Framed::new(curs, Codec(TncControlFraming::new()));

    executor::block_on(async {
        framer.send("MYCALL W1AW\r".to_owned()).await.unwrap();
        framer.send("LISTEN TRUE\r".to_owned()).await.unwrap();
    });
    let (curs, _) = framer.release();
    assert_eq!(
        "MYCALL W1AW\rLISTEN TRUE\r",
        str::from_utf8(curs.into_inner().as_ref()).unwrap()
    );
}

#[test]
fn encode_appends_behind_what_is_there() {
    let mut framing = TncControlFraming::new();
    let mut dst = BytesMut::from(&b"A\r"[..]);
    framing.encode("B\u{e9}\r".to_owned(), &mut dst).unwrap();
    assert_eq!(&b"A\rB\xc3\xa9\r"[..], &dst[..]);

    let mut apart = BytesMut::new();
    framing.encode("MYCALL ".to_owned(), &mut apart).unwrap();
    framing.encode("W1AW\r".to_owned(), &mut apart).unwrap();
    let mut at_once = BytesMut::new();
    framing.encode("MYCALL W1AW\r".to_owned(), &mut at_once).unwrap();
    assert_eq!(apart, at_once);
}

#[test]
fn encode_outgrows_a_small_buffer() {
    let mut framing = TncControlFraming::new();
    let mut dst = BytesMut::new();
    let line = "X".repeat(1000);
    framing.encode(line.clone(), &mut dst).unwrap();
    framing.encode(line.clone(), &mut dst).unwrap();
    assert_eq!(2000, dst.len());
    assert!(dst.iter().all(|b| *b == b'X'));
}

#[test]
fn decode_drops_what_the_parser_deals_with() {
    let mut framing = TncControlFraming::new();
    let mut src = BytesMut::from(&b"abcdef"[..]);
    let seen = RefCell::new(Vec::new());

    let first = framing.decode(&mut src, |head: &[u8]| {
        seen.borrow_mut().push(head.to_vec());
        (2, Some(head[0]))
    });
    assert_eq!(Some(b'a'), first.unwrap());
    assert_eq!(&b"cdef"[..], &src[..]);

    // dealt with, but no response
    let second = framing.decode(&mut src, |head: &[u8]| {
        seen.borrow_mut().push(head.to_vec());
        (3, None::<u8>)
    });
    assert_eq!(None, second.unwrap());
    assert_eq!(&b"f"[..], &src[..]);

    // incomplete
    let third = framing.decode(&mut src, |head: &[u8]| {
        seen.borrow_mut().push(head.to_vec());
        (0, None::<u8>)
    });
    assert_eq!(None, third.unwrap());
    assert_eq!(&b"f"[..], &src[..]);

    // all of it
    let fourth = framing.decode(&mut src, |head: &[u8]| (head.len(), Some(head.len())));
    assert_eq!(Some(1), fourth.unwrap());
    assert!(src.is_empty());

    assert_eq!(
        vec![b"abcdef".to_vec(), b"cdef".to_vec(), b"f".to_vec()],
        seen.into_inner()
    );
}

#[test]
fn a_fresh_framer_can_take_over() {
    let mut used = TncControlFraming::new();
    let mut src = BytesMut::from(&b"PENDING\rCANCELPENDING\rPEND"[..]);
    assert_eq!(
        Some(Response::Event(Event::PENDING)),
        used.decode(&mut src, parse).unwrap()
    );
    let mut copy = src.clone();
    let mut fresh = TncControlFraming::new();
    assert_eq!(
        used.decode(&mut src, parse).unwrap(),
        fresh.decode(&mut copy, parse).unwrap()
    );
    assert_eq!(&b"PEND"[..], &src[..]);
    assert_eq!(src, copy);
    used.encode("X".to_owned(), &mut src).unwrap();
    fresh.encode("X".to_owned(), &mut copy).unwrap();
    assert_eq!(src, copy);
}
