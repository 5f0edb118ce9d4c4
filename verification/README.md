# async_map

Maps for many readers and a single writer, with a focus on many reads and few
writes, proved with Verus.

- `src/` is the verified library. `single_writer_versioned` holds the chain of
  versions that a single writer appends to and readers follow to the newest
  version; `versioned_map`, `nonpointermap`, `nonlockingmap`,
  `non_locking_map` and `lockingmap` are maps of strings whose get-or-create
  steps and reads are proved against `map_spec`. `im_map` states what the
  library relies on from the `im` crate's persistent hash map.
- `app/` runs these maps concurrently: writers as tokio tasks fed through
  channels, and futures for reads that must create a value. The shared state
  is published behind `Arc`: a version number in an atomic, and the latest
  map behind a read-write lock that a reader takes only when its own copy is
  out of date, and the writer only to swap in a new map. The chain of
  versions of `single_writer_versioned` sits behind such a lock too; a
  change runs under the read lock, and only appending its outcome takes the
  write lock.
- The maps hold strings as keys and values.
- Every version of a chain of versions is kept for as long as the chain is.
- `tests/` runs the library on concrete values.
