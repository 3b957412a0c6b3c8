# fp_rust

Functional-programming and reactive utilities — `Maybe`, `MonadIO`, a
publisher/subscriber bus, coroutines (`Cor`), actor handles, blocking
queues, latches and handlers — written in Verus, with contracts proved on
the library code.

Layout:

- `src/` — the verified library. `primitives.rs` holds the trusted
  declarations of the `std` locks, channels, clock and hasher that the
  shared state rests on. A few small trusted items elsewhere put closures
  behind shared trait objects or clone such pointers (`raw_func_of`,
  `raw_receiver_of`, `share_func`, `share_receiver` in `common.rs`;
  `CorEffect`, `effect_of`, `run_effect`, `share_effect` in `cor.rs`;
  `share_handler` in `handler.rs`; `monad_of`, `share_monad` in
  `monadio.rs`). Everything else is proved.
- `app/` — the parts that own threads or speak `futures`: `HandlerThread`,
  `ActorAsync`, starting a `Cor` on its own thread, and `futures` adapters
  (a shared thread pool, futures over queues, latches, wills and effects, and
  a stream over `LinkedListAsync`), and the `fp` and coroutine macros.
- `tests/` — tests of the library, run against the compiled crate.
