# multithread_server

The request handling and worker bookkeeping of a small multi-threaded HTTP and
echo server, verified with Verus.

- `src/request_manager.rs` parses what a client sent, routes it to a static
  file, an image, an echo, a 400 or a 404, and writes the response bytes.
- `src/request_laws.rs` proves what holds across those steps: request lines
  are split into method, path and version; other texts are echoed byte for
  byte; INVALID is answered with 400; Content-Length counts the body.
- `src/pool.rs` is the growing pool of single-use workers; `src/control.rs`
  the decisions of the thread-pool server's listener and worker loops;
  `src/worker_task.rs` the task a worker runs.
- `src/text.rs` holds the character and byte helpers, `src/codec.rs` the two
  trusted conversions (std's lossy UTF-8 decoding, the `base64` crate).
- `app/` is the program: sockets, files, threads and the task queue.
