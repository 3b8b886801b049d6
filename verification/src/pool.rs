//! A growing pool of single-use workers.
//!
//! Each connection goes to the first available worker; when none is
//! available and the pool is below its maximum size, a new worker is added
//! for it; otherwise the connection is refused. A worker that has taken a
//! connection stays busy. Its reply is `GET / HTTP/1.1` → the index page,
//! any other request line → the 404 page, an unreadable page → 500.
use vstd::prelude::*;
use vstd::utf8::*;
use crate::text::{append_bytes, decimal, decimal_bytes, same_text};

verus! {

/// A worker of the pool.
#[derive(Clone, Copy)]
pub struct Worker {
    worker_id: u32,
    is_available: bool,
}

/// What a worker answers: a status line and the file whose content follows.
pub struct ReplyPlan {
    pub status_line: String,
    pub filename: String,
}

impl View for ReplyPlan {
    type V = (Seq<char>, Seq<char>);

    open spec fn view(&self) -> (Seq<char>, Seq<char>) {
        (self.status_line@, self.filename@)
    }
}

/// The status line and file a worker answers a request line with.
pub open spec fn reply_plan(request_line: Seq<char>) -> (Seq<char>, Seq<char>) {
    if request_line == "GET / HTTP/1.1"@ {
        ("HTTP/1.1 200 OK"@, "static/index.html"@)
    } else {
        ("HTTP/1.1 404 NOT FOUND"@, "static/404.html"@)
    }
}

/// The bytes a worker writes: the file's content under the status line and
/// its length in bytes, or a 500 reply when the file could not be read.
pub open spec fn reply_bytes(status_line: Seq<char>, contents: Option<Seq<char>>) -> Seq<u8> {
    match contents {
        Some(c) => encode_utf8(status_line) + encode_utf8("\r\nContent-Length: "@) + decimal(
            encode_utf8(c).len(),
        ) + encode_utf8("\r\n\r\n"@) + encode_utf8(c),
        None => encode_utf8("HTTP/1.1 500 INTERNAL SERVER ERROR\r\n\r\nInternal Server Error"@),
    }
}

impl Worker {
    /// The worker's number.
    pub closed spec fn id(&self) -> u32 {
        self.worker_id
    }

    /// Whether the worker can still take a connection.
    pub closed spec fn available(&self) -> bool {
        self.is_available
    }

    /// A new, available worker.
    pub fn new(worker_id: u32) -> (worker: Self)
        ensures
            worker.id() == worker_id,
            worker.available(),
    {
        Worker { worker_id, is_available: true }
    }

    /// Whether the worker can still take a connection.
    pub fn is_available(&mut self) -> (available: bool)
        ensures
            available == old(self).available(),
            *final(self) == *old(self),
    {
        self.is_available
    }

    /// Takes a connection: the worker becomes busy, and for the request line
    /// read from it (`None` when none could be read) says what to answer.
    pub fn handle_connection(&mut self, request_line: Option<&str>) -> (plan: Option<ReplyPlan>)
        ensures
            final(self).id() == old(self).id(),
            !final(self).available(),
            match request_line {
                Some(line) => plan matches Some(p) && p@ == reply_plan(line@),
                None => plan is None,
            },
    {
        self.is_available = false;
        match request_line {
            None => None,
            Some(line) => {
                if same_text(line, "GET / HTTP/1.1") {
                    Some(
                        ReplyPlan {
                            status_line: "HTTP/1.1 200 OK".to_owned(),
                            filename: "static/index.html".to_owned(),
                        },
                    )
                } else {
                    Some(
                        ReplyPlan {
                            status_line: "HTTP/1.1 404 NOT FOUND".to_owned(),
                            filename: "static/404.html".to_owned(),
                        },
                    )
                }
            },
        }
    }

    /// The bytes to write for a reply, given the file's content if it could
    /// be read.
    pub fn reply(status_line: &str, contents: Option<String>) -> (bytes: Vec<u8>)
        ensures
            bytes@ == reply_bytes(status_line@, contents.deep_view()),
    {
        let mut out: Vec<u8> = Vec::new();
        match contents {
            None => {
                append_bytes(
                    &mut out,
                    "HTTP/1.1 500 INTERNAL SERVER ERROR\r\n\r\nInternal Server Error".as_bytes(),
                );
                assert(out@ =~= reply_bytes(status_line@, contents.deep_view()));
            },
            Some(c) => {
                let length = c.as_str().as_bytes().len();
                append_bytes(&mut out, status_line.as_bytes());
                append_bytes(&mut out, "\r\nContent-Length: ".as_bytes());
                let digits = decimal_bytes(length);
                append_bytes(&mut out, digits.as_slice());
                append_bytes(&mut out, "\r\n\r\n".as_bytes());
                append_bytes(&mut out, c.as_str().as_bytes());
                assert(out@ =~= reply_bytes(status_line@, Some(c@)));
            },
        }
        out
    }
}

/// Every worker in `workers` is busy.
pub open spec fn all_busy(workers: Seq<Worker>) -> bool {
    forall|j: int| 0 <= j < workers.len() ==> !(#[trigger] workers[j]).available()
}

/// No worker that was busy in `before` is available in `after`.
pub open spec fn busy_stay_busy(before: Seq<Worker>, after: Seq<Worker>) -> bool {
    forall|j: int|
        0 <= j < before.len() && !(#[trigger] before[j]).available() ==> !after[j].available()
}

/// Manages the pool: hands each connection to a worker, growing the pool up
/// to its maximum size.
pub struct ServerManager {
    max_threads_count: u32,
    workers: Vec<Worker>,
}

impl ServerManager {
    /// The largest number of workers the pool may hold.
    pub closed spec fn max_workers(&self) -> u32 {
        self.max_threads_count
    }

    /// The workers, in the order they were added.
    pub closed spec fn workers(&self) -> Seq<Worker> {
        self.workers@
    }

    /// The pool never holds more workers than its maximum.
    pub open spec fn wf(&self) -> bool {
        self.workers().len() <= self.max_workers()
    }

    /// A pool of `base_threads_count` available workers numbered from 0,
    /// which may grow to `max_threads_count` workers.
    pub fn new(base_threads_count: u32, max_threads_count: u32) -> (manager: Self)
        requires
            0 < base_threads_count <= max_threads_count,
        ensures
            manager.wf(),
            manager.max_workers() == max_threads_count,
            manager.workers().len() == base_threads_count,
            forall|i: int|
                0 <= i < base_threads_count ==> (#[trigger] manager.workers()[i]).id() == i
                    && manager.workers()[i].available(),
    {
        let mut workers: Vec<Worker> = Vec::new();
        let mut worker_id: u32 = 0;
        while worker_id < base_threads_count
            invariant
                worker_id <= base_threads_count,
                workers@.len() == worker_id,
                forall|i: int|
                    0 <= i < worker_id ==> (#[trigger] workers@[i]).id() == i
                        && workers@[i].available(),
            decreases base_threads_count - worker_id,
        {
            workers.push(Worker::new(worker_id));
            worker_id = worker_id + 1;
        }
        ServerManager { max_threads_count, workers }
    }

    /// Chooses the worker for a new connection: the first available one;
    /// else, below the maximum, a new available worker numbered one past the
    /// pool's size, added at the end; else none, and the pool is unchanged.
    pub fn dispatch(&mut self) -> (slot: Option<usize>)
        requires
            old(self).wf(),
        ensures
            final(self).wf(),
            final(self).max_workers() == old(self).max_workers(),
            busy_stay_busy(old(self).workers(), final(self).workers()),
            match slot {
                Some(i) => {
                    &&& i < final(self).workers().len()
                    &&& final(self).workers()[i as int].available()
                    &&& if i < old(self).workers().len() {
                        &&& final(self).workers() == old(self).workers()
                        &&& forall|j: int| 0 <= j < i ==> !(#[trigger] old(self).workers()[j]).available()
                    } else {
                        &&& all_busy(old(self).workers())
                        &&& old(self).workers().len() < old(self).max_workers()
                        &&& i == old(self).workers().len()
                        &&& final(self).workers().len() == old(self).workers().len() + 1
                        &&& final(self).workers().take(i as int) == old(self).workers()
                        &&& final(self).workers()[i as int].id() == i + 1
                    }
                },
                None => {
                    &&& all_busy(old(self).workers())
                    &&& old(self).workers().len() >= old(self).max_workers()
                    &&& final(self).workers() == old(self).workers()
                },
            },
    {
        let n = self.workers.len();
        let mut i: usize = 0;
        while i < n
            invariant
                n == self.workers@.len(),
                i <= n,
                *self == *old(self),
                old(self).wf(),
                forall|j: int| 0 <= j < i ==> !(#[trigger] self.workers@[j]).available(),
            decreases n - i,
        {
            let mut w = self.workers[i];
            if w.is_available() {
                return Some(i);
            }
            i = i + 1;
        }
        if n < self.max_threads_count as usize {
            let worker_count = n as u32;
            let ghost before = self.workers@;
            self.workers.push(Worker::new(worker_count + 1));
            assert(self.workers@.take(n as int) =~= before);
            return Some(n);
        }
        None
    }

    /// Hands a connection to the worker at `slot`, which becomes busy, and
    /// says what to answer the request line read from it.
    pub fn handle_connection_at(&mut self, slot: usize, request_line: Option<&str>) -> (plan:
        Option<ReplyPlan>)
        requires
            old(self).wf(),
            slot < old(self).workers().len(),
        ensures
            final(self).wf(),
            final(self).max_workers() == old(self).max_workers(),
            final(self).workers().len() == old(self).workers().len(),
            forall|j: int|
                0 <= j < old(self).workers().len() && j != slot ==> #[trigger] final(self).workers()[j]
                    == old(self).workers()[j],
            final(self).workers()[slot as int].id() == old(self).workers()[slot as int].id(),
            !final(self).workers()[slot as int].available(),
            match request_line {
                Some(line) => plan matches Some(p) && p@ == reply_plan(line@),
                None => plan is None,
            },
    {
        let mut w = self.workers[slot];
        let plan = w.handle_connection(request_line);
        self.workers.set(slot, w);
        plan
    }
}

} // verus!
