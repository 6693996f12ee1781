# thread_cell

A cell that keeps a value (which need not be `Send` or `Sync`) on a thread of
its own; other threads reach it by sending jobs, and a session gives exclusive
access while it is held.

- `src/` is the verified library. The handles and the resource's thread are
  generic over the job type `J: FnOnce(&mut T)`. Every channel half carries
  the identity (and, for crossbeam, the capacity) of its channel, and every
  send or receive comes with a receipt naming the channel and the message:
  queued, refused, or received. So the contracts say which message each
  request queues where (or which queue refused it), that a waiting request
  waits on the channel its job answers on, which queue the resource's thread
  receives from, and that a granted session is the queue then served. `Manager::handle` decides and
  performs what each received event calls for; its contract states how the
  resource, the mode and the served queue change. The operations offered on top of plain
  jobs (set, replace, take, get) are verified job bodies.
- `app/` is the public face: `ThreadCell<T>` and `ThreadCellSession<T>` with
  boxed closures as jobs, the thread that owns the resource (it loops over
  `Manager::next_event` and `Manager::handle`), and the async variants.
- `tests/` drives cells and their managers on the test's own thread.
