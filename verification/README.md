# scpi

A SCPI-1999 / IEEE 488.2 command parser and command tree, written in Verus:
every function of the library carries a contract that Verus proves.

The crate reads ASCII program messages (`[u8]`) and writes ASCII responses; it
has no transport layer.

## Layout

- `src/parser/`: character classes and mnemonic matching (`util`), the
  tokenizer (`tokenizer`, `token`), parameter reading and conversion
  (`parameters`), numeric and channel list expressions (`expression`),
  decimal suffixes (`suffix`), response formatting (`response`, with a
  bounded formatter in `response/arrayformatter.rs`), and the calls into
  `lexical-core` for integer text (`lexical`).
- `src/tree/`: the command tree (`Node`), how a header is routed through it
  (`Node::route`), and the `Command` trait of its handlers.
- `src/error.rs`, `src/error/`: error codes, errors and error queues.
- `src/ieee488/`: the IEEE 488.2 status registers and mandatory commands.
- `src/scpi1999/`: the SCPI-99 status registers, status, system, sense,
  unit and trigger commands, numeric parameters.
- `src/expression/`: standalone numeric list and channel list readers over
  raw bytes.
- `tests/`: tests of the library.
- `app/`: what holds floating point values or `dyn Any`: float parameters
  and responses, `uom` quantities with their unit suffixes, the sense and
  system commands over them, and a context with user data.

## Verifying

The contracts speak of views: a `Token` is seen as a `SpecToken`, a
tokenizer as the bytes left to read with its header flags, a formatter as
the bytes it holds. The tokenizer's behaviour is the spec function
`lex_next`; the routing of a header through a tree is `Node::route`.

## Notes for users

- Integer parameters accept integers (`<NR1>`) only: decimal data with a
  fraction or an exponent, such as `1.5` or `2E1`, is refused with
  `NumericDataError`. Rounding such data goes through floating point, which
  the library leaves out; `app/float.rs` has readers that round.
- A `Command` implementation calls `Context::record_call` when it starts
  (a ghost record of the call, nothing is kept at run time): the trait's
  contract asks for it, and what the tree states about a run rests on it.
- The context also keeps ghost records of what each handler returned, of
  what the device methods that handlers forward to returned, and of the
  errors handed to `Device::handle_error`.
