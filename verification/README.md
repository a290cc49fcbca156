# glsp_wrap

The boundary between a scripting language and the host program that embeds it, written in Rust and
verified with Verus.

Values of the scripting language live on a heap, and are known to the host by handles. This library
converts between them and host types, and turns host functions of any signature into functions that
the engine can call.

## Layout

- `src/value.rs`, `src/store.rs`: values, handles and the heap. `Store` is what a `Heap` holds, as
  the contracts see it.
- `src/error.rs`, `src/message.rs`: the errors, and what they say.
- `src/into_val.rs`, `src/into_*.rs`: `IntoVal`, from host types to values, and `IntoValMut`, the
  same by mutable reference.
- `src/from_val.rs`, `src/from_*.rs`: `FromVal`, from values to host types.
- `src/lossless.rs`, `src/lossless_map.rs`: what is read back of what was converted.
- `src/limits.rs`: how many arguments a function takes.
- `src/args.rs`, `src/args_ref.rs`, `src/rest.rs`: from arguments to parameters.
- `src/wrap.rs`: `wrap` and the wrapped call.
- `src/callable.rs`, `src/call_args.rs`: calling the other way, from the host.
- `src/laws.rs`: what holds of the library as a whole.
- `src/small.rs`, `src/slice_mut.rs`, `src/text.rs`, `src/marker.rs`, `src/order.rs`: what the rest
  is built on.
- `app/`: ordinary Rust around the library, for floating point, the operating system's text types,
  type erasure, and the calls that the engine performs.
- `tests/`: tests of the library.

## Contracts

A conversion to a value is a function of the host value and of the heap: `to_val` says what it
leaves on the heap and what it returns. A conversion from a value is a function of the value and of
the heap: `of_val` says what it returns. A wrapped call says, by `gives`, why it is refused, or what
the host function was called with and what became of its result.

A host value that the library only passes on is known to it by a token. Borrows of such values are
kept on the heap while a call lasts, so that an exclusive one rules out all others.
