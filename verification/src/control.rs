//! The decisions of the thread-pool server's two loops. The listener loop
//! accepts connections and hands each one to the workers as a task; each
//! worker loop takes tasks off the shared queue and runs them. The loops
//! themselves, with their sockets, threads and channel, run around these
//! functions.
use vstd::prelude::*;

verus! {

/// How long the listener waits when no connection is pending.
pub const IDLE_WAIT_MILLIS: u64 = 100;

/// What trying to accept a connection gave.
pub enum Incoming {
    /// A client connected.
    Connection,
    /// No connection is pending (the listener does not block).
    WouldBlock,
    /// Accepting failed for another reason.
    Failed,
}

/// What the listener does with an accept outcome.
pub enum ListenerAction {
    /// Hand the connection to the workers as a task.
    Dispatch,
    /// Wait this many milliseconds before trying again.
    Wait { millis: u64 },
    /// Report the error and go on.
    Report,
}

/// What a worker's attempt to take a task off the queue gave.
pub enum Received {
    /// A task.
    Task,
    /// The queue's lock was poisoned by a panicking worker.
    Poisoned,
    /// The queue is closed: the server has gone.
    Closed,
}

/// What a worker does next.
pub enum WorkerStep {
    /// Run the task, then wait for the next one.
    Run,
    /// Leave the loop; the worker's thread ends.
    Exit,
}

/// The listener's action for an accept outcome: a connection is handed on,
/// an empty queue is waited out, any other error is reported. (After each
/// action the listener goes on only while the server is running.)
pub fn listener_step(incoming: Incoming) -> (action: ListenerAction)
    ensures
        action == match incoming {
            Incoming::Connection => ListenerAction::Dispatch,
            Incoming::WouldBlock => ListenerAction::Wait { millis: IDLE_WAIT_MILLIS },
            Incoming::Failed => ListenerAction::Report,
        },
{
    match incoming {
        Incoming::Connection => ListenerAction::Dispatch,
        Incoming::WouldBlock => ListenerAction::Wait { millis: IDLE_WAIT_MILLIS },
        Incoming::Failed => ListenerAction::Report,
    }
}

/// A worker's step: it runs each task it receives and stops when the queue
/// is poisoned or closed.
pub fn worker_step(received: Received) -> (step: WorkerStep)
    ensures
        step == match received {
            Received::Task => WorkerStep::Run,
            _ => WorkerStep::Exit,
        },
{
    match received {
        Received::Task => WorkerStep::Run,
        Received::Poisoned => WorkerStep::Exit,
        Received::Closed => WorkerStep::Exit,
    }
}

} // verus!
