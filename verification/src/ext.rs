//! Declarations of the outside types the handle owns, and trusted wrappers
//! around the pipe and task operations it performs.

use vstd::prelude::*;
use core::future::Future;

verus! {

/// The read end of a bounded byte pipe (the piper crate).
#[verifier::external_type_specification]
#[verifier::external_body]
pub struct ExReader(piper::Reader);

/// The write end of a bounded byte pipe (the piper crate).
#[verifier::external_type_specification]
#[verifier::external_body]
pub struct ExWriter(piper::Writer);

/// A handle to a spawned background task (the async-task crate).
#[verifier::external_type_specification]
#[verifier::external_body]
#[verifier::reject_recursive_types(T)]
#[verifier::reject_recursive_types(M)]
pub struct ExTask<T, M>(async_task::Task<T, M>);

/// A task handle whose poll is total: a closed task yields `None` instead of
/// panicking (the async-task crate).
#[verifier::external_type_specification]
#[verifier::external_body]
#[verifier::reject_recursive_types(T)]
#[verifier::reject_recursive_types(M)]
pub struct ExFallibleTask<T, M>(async_task::FallibleTask<T, M>);

/// The wakeup context threaded through every poll operation.
#[verifier::external_type_specification]
#[verifier::external_body]
pub struct ExContext<'a>(core::task::Context<'a>);

/// An operating-system I/O error.
#[verifier::external_type_specification]
#[verifier::external_body]
pub struct ExIoError(std::io::Error);

/// The outcome of one poll of a pipe end: not ready yet, or `n` bytes moved.
pub enum PipePoll {
    Pending,
    Ready(usize),
}

/// The outcome of one poll of a background task: not done yet; its result; or
/// `Closed` — the executor cancelled or destroyed the task (or its result was
/// already yielded), so it will never hand a result back.
pub enum TaskPoll<T> {
    Pending,
    Done(T),
    Closed,
}

/// Relies on core::mem::replace: moves `src` into `dest` and returns the
/// value that `dest` held before.
pub assume_specification<T>[ core::mem::replace::<T> ](dest: &mut T, src: T) -> (r: T)
    ensures
        *final(dest) == src,
        r == *old(dest),
;

/// Relies on piper::Reader::poll_drain_bytes: moves at most `dest.len()` bytes
/// out of the pipe into the front of `dest`, in order, leaving the rest of
/// `dest` unchanged; yields 0 only when the write end is closed and the pipe
/// is drained (or `dest` is empty); suspends when the pipe is empty and open.
#[verifier::external_body]
pub(crate) fn pipe_drain(
    r: &mut piper::Reader,
    cx: &mut core::task::Context<'_>,
    dest: &mut Vec<u8>,
) -> (p: PipePoll)
    ensures
        final(dest)@.len() == old(dest)@.len(),
        p matches PipePoll::Ready(n) ==> n <= old(dest)@.len()
            && final(dest)@.skip(n as int) == old(dest)@.skip(n as int),
        p is Pending ==> final(dest)@ == old(dest)@,
{
    match r.poll_drain_bytes(cx, dest.as_mut_slice()) {
        core::task::Poll::Ready(n) => PipePoll::Ready(n),
        core::task::Poll::Pending => PipePoll::Pending,
    }
}

/// Relies on piper::Writer::poll_fill_bytes: moves at most `src.len()` bytes
/// from the front of `src` into the pipe, in order; yields 0 only when the
/// read end is closed (or `src` is empty); suspends when the pipe is full.
#[verifier::external_body]
pub(crate) fn pipe_fill(
    w: &mut piper::Writer,
    cx: &mut core::task::Context<'_>,
    src: &[u8],
) -> (p: PipePoll)
    ensures
        p matches PipePoll::Ready(n) ==> n <= src@.len(),
{
    match w.poll_fill_bytes(cx, src) {
        core::task::Poll::Ready(n) => PipePoll::Ready(n),
        core::task::Poll::Pending => PipePoll::Pending,
    }
}

/// Relies on async_task::Task::fallible: wraps the task handle so that
/// polling a closed task yields `None` instead of panicking.
#[verifier::external_body]
pub(crate) fn task_fallible<T>(t: async_task::Task<T>) -> (r: async_task::FallibleTask<T>) {
    t.fallible()
}

/// Relies on async_task::FallibleTask's Future impl: polling yields the
/// task's result at most once; a task that is closed — cancelled or dropped
/// by its executor, or its result already yielded — comes back `Closed`
/// instead of panicking. When the result arrives depends on the executor, so
/// nothing is stated of the yielded value. The one panic that remains is a
/// re-raise: a task whose own future panicked has that panic resumed on the
/// polling thread, as any call into the caller-supplied pump would.
#[verifier::external_body]
pub(crate) fn task_poll<T>(
    t: &mut async_task::FallibleTask<T>,
    cx: &mut core::task::Context<'_>,
) -> (p: TaskPoll<T>)
{
    match core::pin::Pin::new(t).poll(cx) {
        core::task::Poll::Ready(Some(v)) => TaskPoll::Done(v),
        core::task::Poll::Ready(None) => TaskPoll::Closed,
        core::task::Poll::Pending => TaskPoll::Pending,
    }
}

} // verus!
