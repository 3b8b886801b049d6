//! A small HTTP and echo server's request handling, response writing,
//! worker bookkeeping and task plumbing.
pub mod text;
pub mod codec;
pub mod request_manager;
pub mod request_laws;
pub mod worker_task;
pub mod pool;
pub mod control;
pub mod pool_laws;
