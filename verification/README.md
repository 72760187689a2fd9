# ardop_arq

Connection state and control framing for an ARDOP terminal node controller
(TNC), verified with Verus.

- `src/tncio/arqstate.rs`: `ArqState`, the state of an ARQ connection. It does
  no I/O. A read, write or flush proceeds in turns: each returns a step that
  says what to poll, and is called again with the reply.
- `src/tncio/arqmodel.rs`: the types of those turns, and what each turn does to
  a connection.
- `src/tncio/arqlaws.rs`: what holds of a connection over any number of turns:
  bytes leave in the order of their arrival, every byte written is accounted
  for, writes are atomic and respect the high-water mark, a closed connection
  stays closed.
- `src/tncio/arqsession.rs`: the same over whole calls: readers get what has
  arrived, the counts add up to what was sent, and a shutdown is final.
- `src/framing/control.rs`: `TncControlFraming`, which frames control messages.
  The parser of the responses is an argument.
- `src/outside.rs`: the calls into `bytes`, `num` and std. What their contracts
  state is believed, not proved.
- `app/`: a connection and a codec over asynchronous streams and sinks.
