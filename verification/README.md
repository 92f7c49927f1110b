# neenee_code

The interaction core of a terminal chat client for coding agents, written in
Verus. The library takes terminal events and the agent's responses and turns
them into changes of state and requests; it does no input or output itself.

- `src/input` maps keys, mouse reports and pastes to actions and edits the
  input line.
- `src/event_loop` carries actions out and prepares and settles frames.
- `src/listener` takes the agent's responses in.
- `src/app` holds the state and its own operations.
- `src/layout.rs`, `src/interaction.rs`, `src/selection.rs` and
  `src/graphemes.rs` find out what is under the pointer and what is selected.
- `src/attachments.rs`, `src/staging.rs` and `src/clipboard_ops.rs` deal with
  pasted images and texts.
- `src/providers.rs` ranks providers and models.

What the library needs from elsewhere comes in as a plain value: the clock,
how labels match a query, where things were drawn. What it wants done is left
in `App::outbox`.

Functions whose names begin with `law_` state what holds across several
operations, such as that a parked draft comes back or that a rejection answers
every queued request.

`app/` is the terminal client around the library. `tests/` runs the library on
concrete values.
