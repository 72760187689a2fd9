//! Framing for the TNC control protocol

use vstd::prelude::*;

use bytes::BytesMut;

use crate::error::TncError;
use crate::outside::{bytes_mut_advance, bytes_mut_as_ref, bytes_mut_extend_from_slice};

verus! {

/// Frames and sends TNC control messages
#[derive(Debug)]
pub struct TncControlFraming {}

impl TncControlFraming {
    /// New TNC control message framer
    pub fn new() -> (framing: TncControlFraming)
        ensures
            framing == (TncControlFraming {  }),
    {
        TncControlFraming {  }
    }

    /// Appends a control message to `dst`, as UTF-8
    ///
    /// The message brings its own terminator. This never fails.
    pub fn encode(&mut self, item: String, dst: &mut BytesMut) -> (result: Result<(), TncError>)
        requires
            crate::outside::bytes_mut_contents(*old(dst)).len() + vstd::utf8::encode_utf8(
                item@,
            ).len() <= isize::MAX,
        ensures
            result is Ok,
            *final(self) == *old(self),
            crate::outside::bytes_mut_contents(*final(dst))
                == crate::outside::bytes_mut_contents(*old(dst)) + vstd::utf8::encode_utf8(item@),
            crate::outside::bytes_mut_contents(*final(dst)) == encoded(
                crate::outside::bytes_mut_contents(*old(dst)),
                item@,
            ),
    {
        bytes_mut_extend_from_slice(dst, item.as_str().as_bytes());
        Ok(())
    }

    /// Takes the next control message from the head of `src`
    ///
    /// # Parameters
    /// - `src`: What the TNC has sent
    /// - `parse`: Parser of the TNC's responses. It is given all of `src`, and
    ///   returns how many bytes at the head are dealt with, and the response
    ///   that stands there, if there is a complete one.
    ///
    /// # Return
    /// The response, if there is one. The bytes that are dealt with leave
    /// `src`. This never fails.
    pub fn decode<R, P: Fn(&[u8]) -> (usize, Option<R>)>(
        &mut self,
        src: &mut BytesMut,
        parse: P,
    ) -> (result: Result<Option<R>, TncError>)
        requires
            forall|head: &[u8]|
                head@ == crate::outside::bytes_mut_contents(*old(src)) ==> call_requires(
                    parse,
                    (head,),
                ),
            forall|head: &[u8], parsed: (usize, Option<R>)|
                head@ == crate::outside::bytes_mut_contents(*old(src)) && call_ensures(
                    parse,
                    (head,),
                    parsed,
                ) ==> parsed.0 <= head@.len(),
        ensures
            *final(self) == *old(self),
            exists|head: &[u8], parsed: (usize, Option<R>)|
                {
                    &&& head@ == crate::outside::bytes_mut_contents(*old(src))
                    &&& #[trigger] call_ensures(parse, (head,), parsed)
                    &&& result == Ok::<Option<R>, TncError>(parsed.1)
                    &&& crate::outside::bytes_mut_contents(*final(src)) == head@.skip(
                        parsed.0 as int,
                    )
                },
            result matches Ok(item) && decoded(
                parse,
                crate::outside::bytes_mut_contents(*old(src)),
                item,
                crate::outside::bytes_mut_contents(*final(src)),
            ),
    {
        // parse the head of src
        let head = bytes_mut_as_ref(src);
        let parsed = parse(head);
        // drop parsed characters from the buffer
        bytes_mut_advance(src, parsed.0);
        Ok(parsed.1)
    }
}

/// `before`, with a message appended as UTF-8.
pub open spec fn encoded(before: Seq<u8>, item: Seq<char>) -> Seq<u8> {
    before + vstd::utf8::encode_utf8(item)
}

/// What the parser makes of `before` is `item`, and the bytes that it deals
/// with are those that `after` lacks at the head.
pub open spec fn decoded<R, P: Fn(&[u8]) -> (usize, Option<R>)>(
    parse: P,
    before: Seq<u8>,
    item: Option<R>,
    after: Seq<u8>,
) -> bool {
    exists|head: &[u8], parsed: (usize, Option<R>)|
        {
            &&& head@ == before
            &&& #[trigger] call_ensures(parse, (head,), parsed)
            &&& item == parsed.1
            &&& after == before.skip(parsed.0 as int)
        }
}

/// The parser makes the same of the same bytes every time.
pub open spec fn settled<R, P: Fn(&[u8]) -> (usize, Option<R>)>(
    parse: P,
    before: Seq<u8>,
) -> bool {
    forall|one: &[u8], two: &[u8], first: (usize, Option<R>), second: (usize, Option<R>)|
        one@ == before && two@ == before && #[trigger] call_ensures(parse, (one,), first)
            && #[trigger] call_ensures(parse, (two,), second) ==> first == second
}

/// Encoding keeps what is there and appends the message, all of it: the bytes
/// behind what was there are the message's, and decode as UTF-8 to its text.
pub proof fn law_encoding_appends_the_message(before: Seq<u8>, item: Seq<char>)
    ensures
        encoded(before, item).take(before.len() as int) == before,
        encoded(before, item).skip(before.len() as int) == vstd::utf8::encode_utf8(item),
        vstd::utf8::decode_utf8(encoded(before, item).skip(before.len() as int)) == item,
{
    broadcast use vstd::utf8::encode_utf8_decode_utf8;

    assert(encoded(before, item).take(before.len() as int) =~= before);
    assert(encoded(before, item).skip(before.len() as int) =~= vstd::utf8::encode_utf8(item));
}

/// What is decoded is what the parser returned, and what is left is what the
/// parser did not deal with: there is an outcome of the parser on the bytes at
/// hand of which both hold, however many bytes it dealt with.
pub proof fn law_decoding_returns_the_outcome<R, P: Fn(&[u8]) -> (usize, Option<R>)>(
    parse: P,
    before: Seq<u8>,
    item: Option<R>,
    after: Seq<u8>,
)
    requires
        decoded(parse, before, item, after),
    ensures
        exists|head: &[u8], count: usize|
            {
                &&& head@ == before
                &&& #[trigger] call_ensures(parse, (head,), (count, item))
                &&& after == before.skip(count as int)
            },
{
    let (head, parsed) = choose|head: &[u8], parsed: (usize, Option<R>)|
        {
            &&& head@ == before
            &&& #[trigger] call_ensures(parse, (head,), parsed)
            &&& item == parsed.1
            &&& after == before.skip(parsed.0 as int)
        };
    assert(call_ensures(parse, (head,), (parsed.0, item)));
}

/// No response is swallowed, and none is made up: where the parser can only
/// return a response there is one, and where it can return none there is none.
pub proof fn law_no_response_is_swallowed<R, P: Fn(&[u8]) -> (usize, Option<R>)>(
    parse: P,
    before: Seq<u8>,
    item: Option<R>,
    after: Seq<u8>,
)
    requires
        decoded(parse, before, item, after),
    ensures
        (forall|head: &[u8], parsed: (usize, Option<R>)|
            head@ == before && #[trigger] call_ensures(parse, (head,), parsed) ==> parsed.1
                is Some) ==> item is Some,
        (forall|head: &[u8], parsed: (usize, Option<R>)|
            head@ == before && #[trigger] call_ensures(parse, (head,), parsed) ==> parsed.1
                is None) ==> item is None,
{
}

/// The lines that stand one behind the other, and what follows them.
pub open spec fn joined(lines: Seq<Seq<u8>>, rest: Seq<u8>) -> Seq<u8>
    decreases lines.len(),
{
    if lines.len() == 0 {
        rest
    } else {
        lines[0] + joined(lines.skip(1), rest)
    }
}

/// The parser makes `response` of `line`, whatever follows it.
pub open spec fn reads_as<R, P: Fn(&[u8]) -> (usize, Option<R>)>(
    parse: P,
    line: Seq<u8>,
    response: R,
) -> bool {
    forall|head: &[u8], parsed: (usize, Option<R>)|
        line.is_prefix_of(head@) && #[trigger] call_ensures(parse, (head,), parsed) ==> parsed == (
            line.len() as usize,
            Some(response),
        )
}

/// Successive decodes give the responses of the lines received, one by one, in
/// order and none missing, and then what follows the lines is left.
pub proof fn law_successive_decodes<R, P: Fn(&[u8]) -> (usize, Option<R>)>(
    parse: P,
    lines: Seq<Seq<u8>>,
    responses: Seq<R>,
    rest: Seq<u8>,
    items: Seq<Option<R>>,
    left: Seq<Seq<u8>>,
)
    requires
        lines.len() == responses.len() == items.len(),
        left.len() == lines.len() + 1,
        left[0] == joined(lines, rest),
        forall|i: int|
            0 <= i < lines.len() ==> (#[trigger] lines[i]).len() <= usize::MAX && reads_as(
                parse,
                lines[i],
                responses[i],
            ),
        forall|i: int|
            0 <= i < lines.len() ==> #[trigger] decoded(parse, left[i], items[i], left[i + 1]),
    ensures
        forall|i: int| 0 <= i < lines.len() ==> #[trigger] items[i] == Some(responses[i]),
        left.last() == rest,
    decreases lines.len(),
{
    if lines.len() > 0 {
        let line = lines[0];
        let others = joined(lines.skip(1), rest);
        assert(decoded(parse, left[0], items[0], left[0int + 1]));
        law_decoding_returns_the_outcome(parse, left[0], items[0], left[1]);
        let (head, count) = choose|head: &[u8], count: usize|
            {
                &&& head@ == left[0]
                &&& #[trigger] call_ensures(parse, (head,), (count, items[0]))
                &&& left[1] == left[0].skip(count as int)
            };
        assert(line.is_prefix_of(head@)) by {
            assert(line =~= (line + others).subrange(0, line.len() as int));
        }
        assert(reads_as(parse, lines[0], responses[0]));
        assert((line + others).skip(line.len() as int) =~= others);
        assert forall|i: int| 0 <= i < lines.skip(1).len() implies (#[trigger] lines.skip(
            1,
        )[i]).len() <= usize::MAX && reads_as(
            parse,
            lines.skip(1)[i],
            responses.skip(1)[i],
        ) by {
            assert(lines.skip(1)[i] == lines[i + 1]);
        }
        assert forall|i: int| 0 <= i < lines.skip(1).len() implies #[trigger] decoded(
            parse,
            left.skip(1)[i],
            items.skip(1)[i],
            left.skip(1)[i + 1],
        ) by {
            assert(decoded(parse, left[i + 1], items[i + 1], left[i + 1 + 1]));
        }
        law_successive_decodes(
            parse,
            lines.skip(1),
            responses.skip(1),
            rest,
            items.skip(1),
            left.skip(1),
        );
        assert forall|i: int| 0 <= i < lines.len() implies #[trigger] items[i] == Some(
            responses[i],
        ) by {
            if i > 0 {
                assert(items.skip(1)[i - 1] == Some(responses.skip(1)[i - 1]));
            }
        }
    }
}

/// A framer carries no state: a new one is equal to one that has been used, so
/// that either can take the other's place. What `encode` leaves does not
/// depend on the framer, nor, where the parser makes the same of the same bytes
/// every time, what `decode` returns and leaves.
pub proof fn law_framers_are_interchangeable<R, P: Fn(&[u8]) -> (usize, Option<R>)>(
    used: TncControlFraming,
    fresh: TncControlFraming,
    before: Seq<u8>,
    item: Seq<char>,
    used_encoded: Seq<u8>,
    fresh_encoded: Seq<u8>,
    parse: P,
    used_item: Option<R>,
    used_after: Seq<u8>,
    fresh_item: Option<R>,
    fresh_after: Seq<u8>,
)
    requires
        used_encoded == encoded(before, item),
        fresh_encoded == encoded(before, item),
        settled::<R, P>(parse, before),
        decoded(parse, before, used_item, used_after),
        decoded(parse, before, fresh_item, fresh_after),
    ensures
        used == fresh,
        used_encoded == fresh_encoded,
        used_item == fresh_item,
        used_after == fresh_after,
{
}

/// Two messages that are decoded one after the other take up the bytes at the
/// head of what was received, one behind the other, and leave the rest.
pub proof fn law_decoded_bytes_leave_in_order(received: Seq<u8>, first: nat, second: nat)
    requires
        first <= received.len(),
        second <= received.skip(first as int).len(),
    ensures
        received == received.take(first as int) + received.skip(first as int).take(second as int)
            + received.skip(first as int).skip(second as int),
        received.skip(first as int).skip(second as int) == received.skip((first + second) as int),
{
    assert(received =~= received.take(first as int) + received.skip(first as int).take(
        second as int,
    ) + received.skip(first as int).skip(second as int));
    assert(received.skip(first as int).skip(second as int) =~= received.skip(
        (first + second) as int,
    ));
}

/// Messages that are sent one after the other go out as one run of text: the
/// bytes of both, in order and with nothing between them.
pub proof fn law_messages_concatenate(first: Seq<char>, second: Seq<char>)
    ensures
        vstd::utf8::encode_utf8(first + second) == vstd::utf8::encode_utf8(first)
            + vstd::utf8::encode_utf8(second),
        forall|before: Seq<u8>| #[trigger]
            encoded(before, first + second) == encoded(encoded(before, first), second),
    decreases first.len(),
{
    if first.len() == 0 {
        assert(first + second =~= second);
        assert(vstd::utf8::encode_utf8(first + second) =~= vstd::utf8::encode_utf8(first)
            + vstd::utf8::encode_utf8(second));
    } else {
        law_messages_concatenate(first.drop_first(), second);
        assert((first + second).drop_first() =~= first.drop_first() + second);
        assert(vstd::utf8::encode_utf8(first + second) =~= vstd::utf8::encode_utf8(first)
            + vstd::utf8::encode_utf8(second));
    }
    assert forall|before: Seq<u8>| #[trigger]
        encoded(before, first + second) == encoded(encoded(before, first), second) by {
        assert(encoded(before, first + second) =~= encoded(encoded(before, first), second));
    }
}

} // verus!
