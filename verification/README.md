# hitbox

A caching toolkit whose decisions are proved with Verus: cache keys and
their text, cached values with expiry and stale deadlines, cache policies,
predicates and their combinators, key and tag extractors, the evaluation
context shared by predicates, function-argument keys for memoization, the
plans behind the caching macros, and a disk backend on FeOxDB.

## Layout

- `src/` — the verified library. Each module states its contracts over
  mathematical views (`Seq`, `Map`, `Set`, `int`); calls into `bytes`,
  `bincode`, `feoxdb`, `convert_case` and the system clock go through small
  trusted wrappers whose doc comments say what is assumed of them.
  - `status`, `time`, `policy`, `value` — what the cache did, points in
    time, policies, and the freshness of a cached value.
  - `decimal`, `key`, `tag`, `raw` — key parts, cache keys and their text,
    tags, raw bytes.
  - `predicate`, `extractor`, `request`, `response`, `config` — the cache
    decision for requests and responses.
  - `eval_context` — a store of values keyed by type, one per type.
  - `fn_args`, `fields`, `cache`, `offload` — function memoization.
  - `macro_plan` — what the caching macros accept (attribute arguments,
    signatures, skip lists) and what they generate.
  - `feoxdb` — the disk backend: key encoding, store calls, and how store
    answers become backend answers.
- `tests/` — tests of the compiled library.
- `app/` — what runs around the library: the backend's blocking-thread
  I/O and value serialization, `Display` error types, conversions to
  `chrono` times, and reading macro input with `syn`.
