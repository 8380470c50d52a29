# qs

A PostgreSQL client library whose protocol logic is verified with Verus.

- `src/` is the library.  The wire format (`postgres::frontend`,
  `postgres::backend`), the connection's buffers and bookkeeping
  (`connection::state`, with its statement cache in
  `connection::stmt_cache`), the extended query protocol (`query`), the
  startup phase and simple queries (`protocol`), rows and columns (`row`,
  `column`, `decode`), urls (`connection::config`, `options`) and the pool's
  decisions (`pool::worker`) each come with contracts that Verus proves.
  Each state machine takes one event at a time (a backend message, a
  flushed buffer, a finished health check) and says what to do next.
- `app/` is the runtime around it: tokio sockets, the futures that read and
  write the buffers, and the task that serves the pool.  It performs the
  actions the library decides and hands back what happened.
- `tests/` exercises the library on concrete messages.
