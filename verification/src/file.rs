//! The file-handle state machine.
//!
//! A handle is in exactly one of four states: idle (holding the underlying
//! resource, or nothing after close), reading, writing, or seeking. While a
//! background pump task is in flight the resource lives inside that task; it
//! comes back to the idle slot when the task is joined. Every operation that
//! needs the resource first quiesces whatever other activity is in progress.

use vstd::prelude::*;
use vstd::pervasive::unreached;
use crate::ext::{pipe_drain, pipe_fill, task_fallible, task_poll, PipePoll, TaskPoll};

verus! {

/// A seek target: an offset from the start, from the current position, or
/// from the end of the resource.
#[derive(Clone, Copy, PartialEq, Eq, Structural, Debug)]
pub enum SeekPos {
    Start(u64),
    Current(i64),
    End(i64),
}

#[verifier::reject_recursive_types(F)]
#[allow(inconsistent_fields)]
enum State<F> {
    Idle(Option<F>),
    Reading {
        reader: Option<piper::Reader>,
        task: async_task::FallibleTask<(Result<(), std::io::Error>, F)>,
    },
    Writing {
        writer: Option<piper::Writer>,
        task: async_task::FallibleTask<(Result<(), std::io::Error>, F)>,
    },
    Seeking {
        target: SeekPos,
        task: async_task::FallibleTask<(Result<u64, std::io::Error>, F)>,
    },
}

/// The handle's mode, as contracts see it. `Open(f)` is an idle handle owning
/// the resource `f`; `Released` is an idle handle owning nothing (after close,
/// or between taking the resource out and starting a pump). In `Reading` and
/// `Writing`, `live` says whether the caller-side pipe end is still held; it
/// is dropped at the start of a quiesce to cancel the pump.
pub enum Mode<F> {
    Open(F),
    Released,
    Reading { live: bool },
    Writing { live: bool },
    Seeking { target: SeekPos },
}

/// One poll of a read: not ready; the caller must spawn a read pump (the
/// handle is idle and open); `n` bytes were filled into the buffer, 0 only at
/// end of stream; the pump's I/O error, surfaced once; or `Lost` — the
/// executor destroyed the pump without handing the resource back, and the
/// handle ends released.
pub enum ReadStep {
    Pending,
    NeedsSpawn,
    Done(usize),
    Failed(std::io::Error),
    Lost,
}

/// One poll of a write: not ready; the caller must spawn a write pump; `n`
/// bytes were accepted into the pipe; a pending I/O error, surfaced once; or
/// `Lost` — the executor destroyed the pump, and the handle ends released.
pub enum WriteStep {
    Pending,
    NeedsSpawn,
    Accepted(usize),
    Failed(std::io::Error),
    Lost,
}

/// One poll of a flush (or of the internal quiesce). `Lost` says the executor
/// destroyed the background task without handing the resource back, and the
/// handle ends released.
pub enum FlushStep {
    Pending,
    Done,
    Failed(std::io::Error),
    Lost,
}

/// One poll of a close: on success, the resource the handle owned is handed
/// back (`None` if it was already closed). `Lost` says the executor destroyed
/// the background task, so there is no resource to hand back; the handle ends
/// released either way.
pub enum CloseStep<F> {
    Pending,
    Done(Option<F>),
    Failed(std::io::Error),
    Lost,
}

/// One poll of a seek: not ready; the caller must spawn a seek task for the
/// requested target (the handle is idle, or the seek that just finished was
/// for a stale target); the resulting absolute position; or the seek task's
/// I/O error.
pub enum SeekStep {
    Pending,
    NeedsSpawn,
    Done(u64),
    Failed(std::io::Error),
    Lost,
}

/// An asynchronous handle over a blocking file-like resource `F`.
///
/// The resource is owned by exactly one side at any instant: the handle's
/// idle slot, or the in-flight background task. A task run to completion
/// hands it back when joined, error or not; an executor that cancels or
/// drops the task instead destroys the resource with it, and the episode
/// ends `Lost` with the handle released.
#[verifier::reject_recursive_types(F)]
pub struct File<F> {
    state: State<F>,
}

impl<F> File<F> {
    /// The handle's current mode; all contracts are stated over it.
    pub closed spec fn mode(&self) -> Mode<F> {
        match self.state {
            State::Idle(slot) => match slot {
                Some(f) => Mode::Open(f),
                None => Mode::Released,
            },
            State::Reading { reader, .. } => Mode::Reading { live: reader is Some },
            State::Writing { writer, .. } => Mode::Writing { live: writer is Some },
            State::Seeking { target, .. } => Mode::Seeking { target },
        }
    }

    /// Wraps an already-open resource; never opens anything itself.
    pub fn new(f: F) -> (h: File<F>)
        ensures
            h.mode() == Mode::Open(f),
    {
        File { state: State::Idle(Some(f)) }
    }

    /// Takes the resource out of the idle slot, to be moved into a background
    /// pump. Calling this on a released (closed) handle is a caller error.
    pub fn take_file(&mut self) -> (f: F)
        requires
            old(self).mode() is Open,
        ensures
            old(self).mode() == Mode::Open(f),
            final(self).mode() is Released,
    {
        match core::mem::replace(&mut self.state, State::Idle(None)) {
            State::Idle(slot) => match slot {
                Some(f) => f,
                None => unreached(),
            },
            _ => unreached(),
        }
    }

    /// Starts a reading episode: the handle keeps the pipe's read end, while
    /// the resource and the pipe's write end have gone into the spawned pump
    /// task behind `task`. Must follow `take_file` directly.
    pub fn enter_reading(
        &mut self,
        reader: piper::Reader,
        task: async_task::Task<(Result<(), std::io::Error>, F)>,
    )
        requires
            old(self).mode() is Released,
        ensures
            final(self).mode() == (Mode::<F>::Reading { live: true }),
    {
        self.state = State::Reading { reader: Some(reader), task: task_fallible(task) };
    }

    /// Starts a writing episode: the handle keeps the pipe's write end, while
    /// the resource and the pipe's read end have gone into the spawned pump
    /// task behind `task`. Must follow `take_file` directly.
    pub fn enter_writing(
        &mut self,
        writer: piper::Writer,
        task: async_task::Task<(Result<(), std::io::Error>, F)>,
    )
        requires
            old(self).mode() is Released,
        ensures
            final(self).mode() == (Mode::<F>::Writing { live: true }),
    {
        self.state = State::Writing { writer: Some(writer), task: task_fallible(task) };
    }

    /// Starts a seeking episode: the resource has gone into the spawned
    /// one-shot seek task behind `task`, which was asked to seek to `target`.
    /// Must follow `take_file` directly.
    pub fn enter_seeking(
        &mut self,
        target: SeekPos,
        task: async_task::Task<(Result<u64, std::io::Error>, F)>,
    )
        requires
            old(self).mode() is Released,
        ensures
            final(self).mode() == (Mode::<F>::Seeking { target }),
    {
        self.state = State::Seeking { target, task: task_fallible(task) };
    }

    /// What a joined background episode means for the quiesce that awaited
    /// it: the pump's success is the quiesce's success, its error is
    /// propagated exactly once (a seek's stale position is discarded), and a
    /// task the executor destroyed is reported lost. Hands back the recovered
    /// resource, absent exactly when the task was lost or still pending.
    fn stop_outcome<T>(p: TaskPoll<(Result<T, std::io::Error>, F)>) -> (r: (Option<F>, FlushStep))
        ensures
            p matches TaskPoll::Done((res, f)) ==> r.0 == Some(f)
                && (res is Ok ==> r.1 is Done)
                && (res matches Err(e) ==> r.1 == FlushStep::Failed(e)),
            p is Closed ==> r.0 is None && r.1 is Lost,
            p is Pending ==> r.0 is None && r.1 is Pending,
    {
        match p {
            TaskPoll::Pending => (None, FlushStep::Pending),
            TaskPoll::Done((res, f)) => match res {
                Ok(_) => (Some(f), FlushStep::Done),
                Err(e) => (Some(f), FlushStep::Failed(e)),
            },
            TaskPoll::Closed => (None, FlushStep::Lost),
        }
    }

    /// What a joined read pump means for the read that drained the pipe dry:
    /// a pump that finished cleanly makes the 0-byte drain the end-of-stream
    /// answer, its error is propagated exactly once, and a destroyed task is
    /// reported lost. Hands back the recovered resource as `stop_outcome`
    /// does.
    fn read_finish_outcome(p: TaskPoll<(Result<(), std::io::Error>, F)>) -> (r: (Option<F>, ReadStep))
        ensures
            p matches TaskPoll::Done((res, f)) ==> r.0 == Some(f)
                && (res is Ok ==> r.1 == ReadStep::Done(0usize))
                && (res matches Err(e) ==> r.1 == ReadStep::Failed(e)),
            p is Closed ==> r.0 is None && r.1 is Lost,
            p is Pending ==> r.0 is None && r.1 is Pending,
    {
        match p {
            TaskPoll::Pending => (None, ReadStep::Pending),
            TaskPoll::Done((res, f)) => match res {
                Ok(()) => (Some(f), ReadStep::Done(0)),
                Err(e) => (Some(f), ReadStep::Failed(e)),
            },
            TaskPoll::Closed => (None, ReadStep::Lost),
        }
    }

    /// What a completed seek task means for the current call: its position is
    /// owed to the caller exactly when its recorded target is the target this
    /// call asked for; a stale success is discarded and a fresh seek is asked
    /// for; a stale error is still surfaced, since the resource's position
    /// really did change.
    fn seek_outcome(recorded: SeekPos, target: SeekPos, res: Result<u64, std::io::Error>) -> (r: SeekStep)
        ensures
            res matches Ok(p) ==> if recorded == target {
                r == SeekStep::Done(p)
            } else {
                r is NeedsSpawn
            },
            res matches Err(e) ==> r == SeekStep::Failed(e),
    {
        match res {
            Err(e) => SeekStep::Failed(e),
            Ok(p) => {
                if recorded == target {
                    SeekStep::Done(p)
                } else {
                    SeekStep::NeedsSpawn
                }
            }
        }
    }

    /// Quiesce: stops whatever background activity is in progress and drives
    /// the handle back to idle. On the first poll of a reading or writing
    /// episode the caller-side pipe end is dropped, which tells the pump to
    /// finish; the pump is then joined, the resource is recovered into the
    /// idle slot, and only then is any error it carried propagated. A task
    /// that its executor destroyed can hand nothing back: the episode ends
    /// `Lost` and the handle is left released. Safe to re-poll across
    /// suspension points: a pipe end is never dropped twice and a task is
    /// never joined twice.
    fn poll_stop(&mut self, cx: &mut core::task::Context<'_>) -> (r: FlushStep)
        ensures
            old(self).mode() is Open ==> r is Done && *final(self) == *old(self),
            old(self).mode() is Released ==> r is Done && *final(self) == *old(self),
            r is Done ==> if old(self).mode() is Released {
                final(self).mode() is Released
            } else {
                final(self).mode() is Open
            },
            r is Failed ==> final(self).mode() is Open,
            r is Lost ==> final(self).mode() is Released,
            r is Pending ==> match final(self).mode() {
                Mode::Reading { live } => !live && old(self).mode() is Reading,
                Mode::Writing { live } => !live && old(self).mode() is Writing,
                Mode::Seeking { target } => old(self).mode() == (Mode::<F>::Seeking { target }),
                _ => false,
            },
    {
        match &self.state {
            State::Idle(_) => {
                return FlushStep::Done;
            }
            _ => {}
        }
        match core::mem::replace(&mut self.state, State::Idle(None)) {
            State::Idle(_) => unreached(),
            State::Reading { reader: _dropped, mut task } => {
                match task_poll(&mut task, cx) {
                    TaskPoll::Pending => {
                        self.state = State::Reading { reader: None, task };
                        FlushStep::Pending
                    }
                    joined => {
                        let (slot, step) = Self::stop_outcome(joined);
                        self.state = State::Idle(slot);
                        step
                    }
                }
            }
            State::Writing { writer: _dropped, mut task } => {
                match task_poll(&mut task, cx) {
                    TaskPoll::Pending => {
                        self.state = State::Writing { writer: None, task };
                        FlushStep::Pending
                    }
                    joined => {
                        let (slot, step) = Self::stop_outcome(joined);
                        self.state = State::Idle(slot);
                        step
                    }
                }
            }
            State::Seeking { target, mut task } => {
                match task_poll(&mut task, cx) {
                    TaskPoll::Pending => {
                        self.state = State::Seeking { target, task };
                        FlushStep::Pending
                    }
                    joined => {
                        let (slot, step) = Self::stop_outcome(joined);
                        self.state = State::Idle(slot);
                        step
                    }
                }
            }
        }
    }

    /// Flush. On an idle handle (open or already closed) this is an immediate
    /// no-op success that starts no background work and leaves the handle
    /// untouched; otherwise it quiesces, and for a writing episode that
    /// quiesce is exactly where the pump flushes the resource before handing
    /// it back.
    pub fn poll_flush(&mut self, cx: &mut core::task::Context<'_>) -> (r: FlushStep)
        ensures
            old(self).mode() is Open ==> r is Done && *final(self) == *old(self),
            old(self).mode() is Released ==> r is Done && *final(self) == *old(self),
            r is Done ==> if old(self).mode() is Released {
                final(self).mode() is Released
            } else {
                final(self).mode() is Open
            },
            r is Failed ==> final(self).mode() is Open,
            r is Lost ==> final(self).mode() is Released,
            r is Pending ==> match final(self).mode() {
                Mode::Reading { live } => !live && old(self).mode() is Reading,
                Mode::Writing { live } => !live && old(self).mode() is Writing,
                Mode::Seeking { target } => old(self).mode() == (Mode::<F>::Seeking { target }),
                _ => false,
            },
    {
        self.poll_stop(cx)
    }

    /// Close: flush, then release the resource, unconditionally. Once the
    /// quiesce has completed, the handle owns nothing from then on, whatever
    /// the outcome: on success the resource is handed back to the caller
    /// (`None` if the handle was already closed: close is idempotent on
    /// state); an error from the quiesce — for a writing episode, from the
    /// pump's closing flush — is surfaced once, but the teardown still
    /// happens, with the recovered resource dropped. Any later read, write or
    /// seek on the handle is a caller error.
    pub fn poll_close(&mut self, cx: &mut core::task::Context<'_>) -> (r: CloseStep<F>)
        ensures
            old(self).mode() is Open || old(self).mode() is Released ==> r is Done,
            !(r is Pending) ==> final(self).mode() is Released,
            r matches CloseStep::Done(slot) ==> match old(self).mode() {
                Mode::Open(f) => slot == Some(f),
                Mode::Released => slot is None,
                _ => slot is Some,
            },
            r is Pending ==> match final(self).mode() {
                Mode::Reading { live } => !live && old(self).mode() is Reading,
                Mode::Writing { live } => !live && old(self).mode() is Writing,
                Mode::Seeking { target } => old(self).mode() == (Mode::<F>::Seeking { target }),
                _ => false,
            },
    {
        match self.poll_stop(cx) {
            FlushStep::Pending => CloseStep::Pending,
            FlushStep::Failed(e) => {
                self.state = State::Idle(None);
                CloseStep::Failed(e)
            }
            FlushStep::Lost => CloseStep::Lost,
            FlushStep::Done => {
                match core::mem::replace(&mut self.state, State::Idle(None)) {
                    State::Idle(slot) => CloseStep::Done(slot),
                    _ => unreached(),
                }
            }
        }
    }

    /// Read: fills the front of `buf` with the next bytes of the stream.
    ///
    /// On an idle open handle it asks the caller to spawn a read pump
    /// (`NeedsSpawn`, after which `take_file`, `enter_reading` and a re-poll
    /// follow). During a reading episode it drains the pipe: `n > 0` bytes are
    /// returned at once without touching the pump; a drained and finished pipe
    /// joins the pump, recovers the resource into the idle slot, and returns
    /// `Done(0)` (end of stream) or the pump's error. A writing or seeking
    /// episode is quiesced first. Calling this on a closed handle, or on a
    /// reading episode whose pipe end was already dropped by an interrupted
    /// quiesce, is a caller error.
    pub fn poll_read(
        &mut self,
        cx: &mut core::task::Context<'_>,
        buf: &mut Vec<u8>,
    ) -> (r: ReadStep)
        requires
            !(old(self).mode() is Released),
            old(self).mode() != (Mode::<F>::Reading { live: false }),
        ensures
            final(buf)@.len() == old(buf)@.len(),
            old(self).mode() is Open ==> r is NeedsSpawn && *final(self) == *old(self)
                && final(buf)@ == old(buf)@,
            r is NeedsSpawn ==> final(self).mode() is Open,
            !(r is Done) ==> final(buf)@ == old(buf)@,
            r matches ReadStep::Done(n) ==> n <= old(buf)@.len()
                && final(buf)@.skip(n as int) == old(buf)@.skip(n as int)
                && (n == 0 ==> final(self).mode() is Open && final(buf)@ == old(buf)@)
                && (n > 0 ==> final(self).mode() == (Mode::<F>::Reading { live: true })),
            r is Failed ==> final(self).mode() is Open,
            r is Lost ==> final(self).mode() is Released,
            r is Pending ==> match final(self).mode() {
                Mode::Reading { live } => live && old(self).mode() is Reading,
                Mode::Writing { live } => !live && old(self).mode() is Writing,
                Mode::Seeking { target } => old(self).mode() == (Mode::<F>::Seeking { target }),
                _ => false,
            },
    {
        match &self.state {
            State::Idle(_) => {
                return ReadStep::NeedsSpawn;
            }
            _ => {}
        }
        match core::mem::replace(&mut self.state, State::Idle(None)) {
            State::Idle(_) => unreached(),
            State::Reading { reader, mut task } => match reader {
                None => unreached(),
                Some(mut rd) => match pipe_drain(&mut rd, cx, buf) {
                    PipePoll::Pending => {
                        self.state = State::Reading { reader: Some(rd), task };
                        ReadStep::Pending
                    }
                    PipePoll::Ready(n) => {
                        if n > 0 {
                            self.state = State::Reading { reader: Some(rd), task };
                            ReadStep::Done(n)
                        } else {
                            proof {
                                assert(buf@.skip(0) =~= buf@);
                                assert(old(buf)@.skip(0) =~= old(buf)@);
                            }
                            match task_poll(&mut task, cx) {
                                TaskPoll::Pending => {
                                    self.state = State::Reading { reader: Some(rd), task };
                                    ReadStep::Pending
                                }
                                joined => {
                                    let (slot, step) = Self::read_finish_outcome(joined);
                                    self.state = State::Idle(slot);
                                    step
                                }
                            }
                        }
                    }
                },
            },
            other => {
                self.state = other;
                match self.poll_stop(cx) {
                    FlushStep::Pending => ReadStep::Pending,
                    FlushStep::Failed(e) => ReadStep::Failed(e),
                    FlushStep::Done => ReadStep::NeedsSpawn,
                    FlushStep::Lost => ReadStep::Lost,
                }
            }
        }
    }

    /// Write: hands the front of `buf` to the write pump through the pipe.
    ///
    /// On an idle open handle it asks the caller to spawn a write pump
    /// (`NeedsSpawn`). During a writing episode it fills the pipe with the
    /// bytes of `buf`, in order: `Accepted(n)` says the first `n` bytes are
    /// now owned by the pipe, and the call suspends instead when the pipe is
    /// full (back-pressure). A reading or seeking episode is quiesced first.
    /// Calling this on a closed handle, or on a writing episode whose pipe end
    /// was already dropped by an interrupted quiesce, is a caller error.
    pub fn poll_write(
        &mut self,
        cx: &mut core::task::Context<'_>,
        buf: &[u8],
    ) -> (r: WriteStep)
        requires
            !(old(self).mode() is Released),
            old(self).mode() != (Mode::<F>::Writing { live: false }),
        ensures
            old(self).mode() is Open ==> r is NeedsSpawn && *final(self) == *old(self),
            r is NeedsSpawn ==> final(self).mode() is Open,
            r matches WriteStep::Accepted(n) ==> n <= buf@.len()
                && old(self).mode() == (Mode::<F>::Writing { live: true })
                && final(self).mode() == (Mode::<F>::Writing { live: true }),
            r is Failed ==> final(self).mode() is Open,
            r is Lost ==> final(self).mode() is Released,
            r is Pending ==> match final(self).mode() {
                Mode::Reading { live } => !live && old(self).mode() is Reading,
                Mode::Writing { live } => live && old(self).mode() is Writing,
                Mode::Seeking { target } => old(self).mode() == (Mode::<F>::Seeking { target }),
                _ => false,
            },
    {
        match &self.state {
            State::Idle(_) => {
                return WriteStep::NeedsSpawn;
            }
            _ => {}
        }
        match core::mem::replace(&mut self.state, State::Idle(None)) {
            State::Idle(_) => unreached(),
            State::Writing { writer, task } => match writer {
                None => unreached(),
                Some(mut wr) => {
                    let step = pipe_fill(&mut wr, cx, buf);
                    self.state = State::Writing { writer: Some(wr), task };
                    match step {
                        PipePoll::Pending => WriteStep::Pending,
                        PipePoll::Ready(n) => WriteStep::Accepted(n),
                    }
                }
            },
            other => {
                self.state = other;
                match self.poll_stop(cx) {
                    FlushStep::Pending => WriteStep::Pending,
                    FlushStep::Failed(e) => WriteStep::Failed(e),
                    FlushStep::Done => WriteStep::NeedsSpawn,
                    FlushStep::Lost => WriteStep::Lost,
                }
            }
        }
    }

    /// Seek: drives the resource's position to `target`.
    ///
    /// On an idle open handle it asks the caller to spawn a one-shot seek task
    /// for `target` (`NeedsSpawn`, then `take_file`, `enter_seeking`,
    /// re-poll). When the in-flight seek task completes, the resource is first
    /// recovered into the idle slot; then, if the task's recorded target is
    /// this call's `target`, its resulting absolute position is returned. A
    /// completed seek whose recorded target differs (the caller changed its
    /// mind between polls) is never reported as this call's result: its stale
    /// success is discarded and the caller is asked to spawn a fresh seek for
    /// `target`, while a stale error is still propagated, since the resource's
    /// position really did change. A reading or writing episode is quiesced
    /// first. Calling this on a closed handle is a caller error.
    pub fn poll_seek(
        &mut self,
        cx: &mut core::task::Context<'_>,
        target: SeekPos,
    ) -> (r: SeekStep)
        requires
            !(old(self).mode() is Released),
        ensures
            old(self).mode() is Open ==> r is NeedsSpawn && *final(self) == *old(self),
            r is NeedsSpawn ==> final(self).mode() is Open,
            r is Done ==> old(self).mode() == (Mode::<F>::Seeking { target })
                && final(self).mode() is Open,
            r is Failed ==> final(self).mode() is Open,
            r is Lost ==> final(self).mode() is Released,
            r is Pending ==> match final(self).mode() {
                Mode::Reading { live } => !live && old(self).mode() is Reading,
                Mode::Writing { live } => !live && old(self).mode() is Writing,
                Mode::Seeking { target: t } => old(self).mode() == (Mode::<F>::Seeking { target: t }),
                _ => false,
            },
    {
        match &self.state {
            State::Idle(_) => {
                return SeekStep::NeedsSpawn;
            }
            _ => {}
        }
        match core::mem::replace(&mut self.state, State::Idle(None)) {
            State::Idle(_) => unreached(),
            State::Seeking { target: recorded, mut task } => {
                match task_poll(&mut task, cx) {
                    TaskPoll::Pending => {
                        self.state = State::Seeking { target: recorded, task };
                        SeekStep::Pending
                    }
                    TaskPoll::Done((res, f)) => {
                        self.state = State::Idle(Some(f));
                        Self::seek_outcome(recorded, target, res)
                    }
                    TaskPoll::Closed => SeekStep::Lost,
                }
            }
            other => {
                self.state = other;
                match self.poll_stop(cx) {
                    FlushStep::Pending => SeekStep::Pending,
                    FlushStep::Failed(e) => SeekStep::Failed(e),
                    FlushStep::Done => SeekStep::NeedsSpawn,
                    FlushStep::Lost => SeekStep::Lost,
                }
            }
        }
    }

    /// Whether the handle is idle and still owns its resource.
    pub fn is_open(&self) -> (r: bool)
        ensures
            r == (self.mode() is Open),
    {
        match &self.state {
            State::Idle(slot) => slot.is_some(),
            _ => false,
        }
    }

    /// Whether the handle owns nothing: closed, or mid-way through starting a
    /// background task.
    pub fn is_released(&self) -> (r: bool)
        ensures
            r == (self.mode() is Released),
    {
        match &self.state {
            State::Idle(slot) => slot.is_none(),
            _ => false,
        }
    }

    /// Whether `poll_read` may be called: guards its precondition.
    pub fn can_poll_read(&self) -> (r: bool)
        ensures
            r == (!(self.mode() is Released)
                && self.mode() != (Mode::<F>::Reading { live: false })),
    {
        match &self.state {
            State::Idle(slot) => slot.is_some(),
            State::Reading { reader, .. } => reader.is_some(),
            _ => true,
        }
    }

    /// Whether `poll_write` may be called: guards its precondition.
    pub fn can_poll_write(&self) -> (r: bool)
        ensures
            r == (!(self.mode() is Released)
                && self.mode() != (Mode::<F>::Writing { live: false })),
    {
        match &self.state {
            State::Idle(slot) => slot.is_some(),
            State::Writing { writer, .. } => writer.is_some(),
            _ => true,
        }
    }

    /// Whether `poll_seek` may be called: guards its precondition.
    pub fn can_poll_seek(&self) -> (r: bool)
        ensures
            r == !(self.mode() is Released),
    {
        match &self.state {
            State::Idle(slot) => slot.is_some(),
            _ => true,
        }
    }

    /// The name of the handle's current state, for diagnostics.
    pub fn state_name(&self) -> (r: &'static str)
        ensures
            self.mode() is Open || self.mode() is Released ==> r@ == "Idle"@,
            self.mode() is Reading ==> r@ == "Reading"@,
            self.mode() is Writing ==> r@ == "Writing"@,
            self.mode() is Seeking ==> r@ == "Seeking"@,
    {
        match &self.state {
            State::Idle(_) => "Idle",
            State::Reading { .. } => "Reading",
            State::Writing { .. } => "Writing",
            State::Seeking { .. } => "Seeking",
        }
    }
}

/// State exclusivity: a handle is in exactly one mode at any instant. No two
/// of the reading, writing and seeking activities exist at once, and the idle
/// slot holds the resource only when no background activity exists at all;
/// starting a new activity therefore always finds the previous one quiesced
/// (every operation reports `NeedsSpawn` only once the handle is idle and
/// open again).
pub proof fn lemma_mode_exclusive<F>(h: &File<F>)
    ensures
        h.mode() is Open ==> !(h.mode() is Reading) && !(h.mode() is Writing)
            && !(h.mode() is Seeking) && !(h.mode() is Released),
        h.mode() is Reading ==> !(h.mode() is Writing) && !(h.mode() is Seeking)
            && !(h.mode() is Open) && !(h.mode() is Released),
        h.mode() is Writing ==> !(h.mode() is Seeking) && !(h.mode() is Open)
            && !(h.mode() is Reading) && !(h.mode() is Released),
        h.mode() is Seeking ==> !(h.mode() is Open) && !(h.mode() is Reading)
            && !(h.mode() is Writing) && !(h.mode() is Released),
{
}

} // verus!
