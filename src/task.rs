use vstd::prelude::*;
use std::sync::atomic::{AtomicBool, Ordering};
use std::sync::Arc;

verus! {

/// Relies on tokio's `JoinHandle`: a handle to a spawned task, carried
/// through the registry and never looked into.
#[verifier::external_type_specification]
#[verifier::external_body]
#[verifier::reject_recursive_types(T)]
pub struct ExJoinHandle<T>(tokio::task::JoinHandle<T>);

/// Relies on tokio's `JoinError`, the error a handle yields when awaited;
/// declared because the handle's `Future` impl names it, and never used here.
#[verifier::external_type_specification]
#[verifier::external_body]
pub struct ExJoinError(tokio::task::JoinError);

/// The kinds of background task.
#[derive(Debug, Clone, Copy, PartialEq, Eq, Structural)]
pub enum TaskType {
    Ethereum,
}

/// The registry of background tasks and the shutdown flag they share.
///
/// Shutdown is cooperative: raising the flag asks every task to stop, and
/// each task notices it on its own schedule. Nothing here cancels or joins
/// a task, so a task may still be running after the flag was raised.
pub struct TaskController {
    registry: Vec<tokio::task::JoinHandle<()>>,
    close_flag: Arc<AtomicBool>,
    signalled: bool,
}

impl TaskController {
    /// The registered handles, in order of registration.
    pub closed spec fn tasks(&self) -> Seq<tokio::task::JoinHandle<()>> {
        self.registry@
    }

    /// The shared flag handed to the tasks.
    pub closed spec fn flag(&self) -> Arc<AtomicBool> {
        self.close_flag
    }

    /// Whether the shutdown signal has been raised.
    pub closed spec fn shutdown_signalled(&self) -> bool {
        self.signalled
    }

    /// A registry holding `tasks`, with a fresh flag that is not raised.
    pub fn new(tasks: Vec<tokio::task::JoinHandle<()>>) -> (r: Self)
        ensures
            r.tasks() == tasks@,
            !r.shutdown_signalled(),
    {
        TaskController {
            registry: tasks,
            close_flag: Arc::new(AtomicBool::new(false)),
            signalled: false,
        }
    }

    /// Appends a task; duplicates are kept as independent entries.
    pub fn push(&mut self, task: tokio::task::JoinHandle<()>)
        ensures
            final(self).tasks() == old(self).tasks().push(task),
            final(self).flag() == old(self).flag(),
            final(self).shutdown_signalled() == old(self).shutdown_signalled(),
    {
        self.registry.push(task);
    }

    /// How many tasks have been registered.
    pub fn task_count(&self) -> (r: usize)
        ensures
            r == self.tasks().len(),
    {
        self.registry.len()
    }

    /// The flag that a task polls to learn that it should stop.
    pub fn shutdown_flag(&self) -> (r: &Arc<AtomicBool>)
        ensures
            *r == self.flag(),
    {
        &self.close_flag
    }

    /// Raises the shutdown flag; the first call stores `true`, later calls
    /// change nothing. Tasks observe the flag eventually, not immediately.
    pub fn clear_all_task(&mut self)
        ensures
            final(self).shutdown_signalled(),
            final(self).tasks() == old(self).tasks(),
            final(self).flag() == old(self).flag(),
    {
        if !self.signalled {
            self.close_flag.store(true, Ordering::SeqCst);
            self.signalled = true;
        }
    }
}

/// A message that a background task sends to the interface thread.
#[derive(Debug)]
pub struct BackgroundThreadData {
    pub a: u64,
}

} // verus!
