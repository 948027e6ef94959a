# adaptive_rpc

Adaptive concurrency control for JSON-RPC clients, verified with Verus.

A controller scales request concurrency, batch size and backoff with the outcome of requests. A
middleware decides for each call under which label it is reported, how long it is held back, and
what its outcome means for the controller.

- `src/` is the verified library.
  - `model` states the controller's transitions mathematically.
  - `adaptive_concurrency` is the controller; each method is proved to make its transition.
  - `laws` proves what holds of the transitions over whole histories, interleavings of a recovery
    with other events included.
  - `rpc_errors` says what the errors of calls mean.
  - `layer_extensions` holds what the middleware decides about each call.
  - `text` searches and writes the text that the others need.
  - `clock` reads the time.
- `tests/` runs the library on concrete values.
- `app/` is ordinary Rust around it: the controller that a process shares behind a lock, the
  `tower` service, metrics and logging.

A controller is changed through `&mut`: whoever shares one among threads puts it behind a lock, so
that each transition is atomic.

What is trusted rather than proved carries `external_body`, `external_type_specification` or
`assume_specification` and says in its doc comment what is claimed of which outside function.
