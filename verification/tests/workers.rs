use std::sync::atomic::{AtomicUsize, Ordering};
use std::sync::Arc;

use multithread_server::control::{
    listener_step, worker_step, Incoming, ListenerAction, Received, WorkerStep, IDLE_WAIT_MILLIS,
};
use multithread_server::pool::{ServerManager, Worker};
use multithread_server::worker_task::WorkerTask;

#[test]
fn task_runs_its_function_once() {
    let count = Arc::new(AtomicUsize::new(0));
    let seen = Arc::clone(&count);
    let task = WorkerTask::new(move || {
        seen.fetch_add(1, Ordering::SeqCst);
    });
    assert_eq!(count.load(Ordering::SeqCst), 0);
    task.run();
    assert_eq!(count.load(Ordering::SeqCst), 1);
}

#[test]
fn boxed_task_runs() {
    let count = Arc::new(AtomicUsize::new(0));
    let seen = Arc::clone(&count);
    let f: Box<dyn FnOnce() + Send + 'static> = Box::new(move || {
        seen.fetch_add(5, Ordering::SeqCst);
    });
    WorkerTask::new(f).run();
    assert_eq!(count.load(Ordering::SeqCst), 5);
}

#[test]
fn new_worker_is_available() {
    let mut w = Worker::new(7);
    assert!(w.is_available());
    assert!(w.is_available());
}

#[test]
fn worker_answers_index_then_stays_busy() {
    let mut w = Worker::new(0);
    let plan = w.handle_connection(Some("GET / HTTP/1.1")).unwrap();
    assert_eq!(plan.status_line, "HTTP/1.1 200 OK");
    assert_eq!(plan.filename, "static/index.html");
    assert!(!w.is_available());
}

#[test]
fn worker_answers_other_lines_with_404() {
    let mut w = Worker::new(1);
    let plan = w.handle_connection(Some("GET /about HTTP/1.1")).unwrap();
    assert_eq!(plan.status_line, "HTTP/1.1 404 NOT FOUND");
    assert_eq!(plan.filename, "static/404.html");
    let mut w = Worker::new(2);
    assert!(w.handle_connection(None).is_none());
    assert!(!w.is_available());
}

#[test]
fn worker_reply_bytes() {
    let out = Worker::reply("HTTP/1.1 200 OK", Some("<p>hi</p>".to_string()));
    assert_eq!(out, b"HTTP/1.1 200 OK\r\nContent-Length: 9\r\n\r\n<p>hi</p>".to_vec());
    let out = Worker::reply("HTTP/1.1 200 OK", None);
    assert_eq!(
        out,
        b"HTTP/1.1 500 INTERNAL SERVER ERROR\r\n\r\nInternal Server Error".to_vec()
    );
}

#[test]
fn pool_uses_first_available_then_grows_then_refuses() {
    let mut pool = ServerManager::new(2, 3);
    assert_eq!(pool.dispatch(), Some(0));
    // Until the chosen worker takes the connection, it stays the first available.
    assert_eq!(pool.dispatch(), Some(0));
    assert!(pool.handle_connection_at(0, Some("GET / HTTP/1.1")).is_some());
    assert_eq!(pool.dispatch(), Some(1));
    assert!(pool.handle_connection_at(1, None).is_none());
    assert_eq!(pool.dispatch(), Some(2));
    let plan = pool.handle_connection_at(2, Some("GET /x HTTP/1.1")).unwrap();
    assert_eq!(plan.status_line, "HTTP/1.1 404 NOT FOUND");
    assert_eq!(pool.dispatch(), None);
    assert_eq!(pool.dispatch(), None);
}

#[test]
fn pool_at_maximum_from_start() {
    let mut pool = ServerManager::new(1, 1);
    assert_eq!(pool.dispatch(), Some(0));
    pool.handle_connection_at(0, Some("GET / HTTP/1.1"));
    assert_eq!(pool.dispatch(), None);
}

#[test]
fn listener_steps() {
    assert!(matches!(listener_step(Incoming::Connection), ListenerAction::Dispatch));
    assert!(matches!(listener_step(Incoming::WouldBlock), ListenerAction::Wait { millis: 100 }));
    assert_eq!(IDLE_WAIT_MILLIS, 100);
    assert!(matches!(listener_step(Incoming::Failed), ListenerAction::Report));
}

#[test]
fn worker_steps() {
    assert!(matches!(worker_step(Received::Task), WorkerStep::Run));
    assert!(matches!(worker_step(Received::Poisoned), WorkerStep::Exit));
    assert!(matches!(worker_step(Received::Closed), WorkerStep::Exit));
}
