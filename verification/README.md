# linked-submit

Futures that submit two or three operations as an io_uring linked chain, with
their decisions verified by Verus.

- `src/` holds the state machines, without I/O: `pair` and `triple` decide what
  a poll does next and what is cancelled when a future is dropped; `pair_laws`
  and `triple_laws` prove what holds over the whole life of a chain, whatever
  the runtime answers; `operation` says what a chain knows of its operations.
- `app/` holds the futures: they call the runtime as the machines ask and hand
  its answers back.
- `tests/` runs the machines against scripted answers.
