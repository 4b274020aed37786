//! Cooperative thread-lifecycle handles.
//!
//! A [`ThreadHandle`] owns a worker thread and exposes three operations over
//! two pieces of shared state: an atomic interruption flag that the worker
//! polls voluntarily, and a slot holding the worker's eventual outcome.
//! `status` reports whether the worker's unit of work is still executing,
//! `interrupt` raises the cooperative interruption flag, and `join` blocks
//! until the worker finishes and hands its outcome to exactly one caller.

use vstd::prelude::*;

mod flag;
mod native;

verus! {

use std::sync::Arc;
use std::sync::atomic::AtomicBool;
use std::sync::atomic::Ordering;
use vstd::rwlock::RwLock;
use vstd::rwlock::RwLockPredicate;
use crate::flag::WeakFlag;
use crate::native::TerminationReceiver;

/// Whether the worker's unit of work is still executing.
#[derive(PartialEq, Eq, Debug)]
pub enum ThreadStatus {
    Running,
    Terminated,
}

/// Declares `std::io::Error`, the error type of `spawn`, so that it can stand
/// in signatures; no operation of it is relied upon.
#[verifier::external_type_specification]
#[verifier::external_body]
pub struct ExIoError(std::io::Error);

/// Error returned by `interrupt` when the worker has already terminated:
/// interrupting a finished worker is meaningless and is reported rather than
/// silently ignored.
#[derive(PartialEq, Eq, Debug)]
pub struct NotRunningError;

/// Report that the unit of work terminated abnormally (panicked) instead of
/// returning a value. The panic's message is carried as data for the joiner
/// to react to; a payload that was not a string leaves it `None`.
#[derive(PartialEq, Eq, Debug)]
pub struct PanicPayload {
    pub message: Option<String>,
}

/// Invariant of the outcome slot: a delivered success satisfies the recorded
/// postcondition of the unit of work; a delivered failure is unrestricted.
#[verifier::reject_recursive_types(T)]
pub(crate) struct OutcomeInv<T> {
    pub post: Ghost<spec_fn(T) -> bool>,
}

impl<T> RwLockPredicate<Option<Result<T, PanicPayload>>> for OutcomeInv<T> {
    closed spec fn inv(self, slot: Option<Result<T, PanicPayload>>) -> bool {
        match slot {
            Some(Ok(ret)) => (self.post@)(ret),
            _ => true,
        }
    }
}

/// Invariant of the take-once slot that holds the termination receiver; it
/// restricts nothing: the slot's lock is there so that exactly one caller can
/// take the receiver out.
pub(crate) struct TakeOnceInv {}

impl RwLockPredicate<Option<TerminationReceiver>> for TakeOnceInv {
    closed spec fn inv(self, slot: Option<TerminationReceiver>) -> bool {
        true
    }
}

/// Handle to one worker thread: a non-owning observer of the worker's
/// interruption flag, used for liveness detection and interrupt signaling; a
/// lock-guarded slot into which the worker delivers its result; and a
/// take-once slot holding the termination receiver until the first `join`
/// consumes it.
#[verifier::reject_recursive_types(T)]
pub struct ThreadHandle<T> {
    interrupted: WeakFlag,
    outcome: Arc<RwLock<Option<Result<T, PanicPayload>>, OutcomeInv<T>>>,
    join_handle: RwLock<Option<TerminationReceiver>, TakeOnceInv>,
}

impl<T> ThreadHandle<T> where T: Send + Sync + 'static {
    /// The postcondition of this handle's unit of work, recorded at spawn:
    /// every value `join` can deliver as a success satisfies it.
    pub closed spec fn post(self) -> spec_fn(T) -> bool {
        (*self.outcome).pred().post@
    }

    /// Spawns one worker thread running `runnable` on a fresh interruption
    /// flag (initially `false`), of which the worker receives the only
    /// strong, owning handle; the worker drops it the instant the unit of
    /// work returns. `name` labels the worker thread for diagnostics. If the
    /// operating system cannot create the thread, the error is surfaced
    /// directly and no worker runs. The returned handle's recorded
    /// postcondition is exactly the postcondition of `runnable`, with the
    /// flag abstracted away.
    pub fn spawn<F>(name: String, runnable: F) -> (result: Result<Self, std::io::Error>) where
        F: FnOnce(Arc<AtomicBool>) -> T,
        F: Send + 'static,

        requires
            forall|interrupted: Arc<AtomicBool>| #[trigger] call_requires(
                runnable,
                (interrupted,),
            ),
        ensures
            (result matches Ok(handle) ==> forall|ret: T|
                #[trigger] (handle.post())(ret) ==> exists|interrupted: Arc<AtomicBool>|
                    call_ensures(runnable, (interrupted,), ret)),
            (result matches Ok(handle) ==> forall|ret: T, interrupted: Arc<AtomicBool>|
                #[trigger] call_ensures(runnable, (interrupted,), ret) ==> (handle.post())(ret)),
    {
        let interrupted_flag = Arc::new(AtomicBool::new(false));
        let interrupted = crate::flag::downgrade(&interrupted_flag);
        let ghost post = |ret: T| exists|strong: Arc<AtomicBool>|
            call_ensures(runnable, (strong,), ret);
        let outcome = Arc::new(RwLock::new(None, Ghost(OutcomeInv { post: Ghost(post) })));
        let worker_outcome = Arc::clone(&outcome);
        let panic_outcome = Arc::clone(&outcome);
        let (signal, done_receiver) = crate::native::termination_channel();
        let signal = Arc::new(signal);
        let worker_signal = Arc::clone(&signal);
        // Runs on the worker thread if the unit of work panics, after its
        // values (the strong flag handle among them) have been dropped:
        // delivers the failure, then signals termination.
        let on_panic = move |payload: PanicPayload| {
            let (_, write_handle) = panic_outcome.acquire_write();
            write_handle.release_write(Some(Err(payload)));
            crate::native::signal_termination(&signal);
        };
        let pool = match crate::native::build_worker_pool(name, on_panic) {
            Ok(pool) => pool,
            Err(err) => {
                return Err(err);
            },
        };
        crate::native::pool_spawn(pool, move || {
            let ghost strong_flag = interrupted_flag;
            let ret = runnable(interrupted_flag);
            proof {
                assert(call_ensures(runnable, (strong_flag,), ret));
            }
            // The outcome is in place before termination is signalled, so a
            // `join` that wakes finds it.
            let (_, write_handle) = worker_outcome.acquire_write();
            write_handle.release_write(Some(Ok(ret)));
            crate::native::signal_termination(&worker_signal);
        });
        Ok(
            ThreadHandle {
                interrupted,
                outcome,
                join_handle: RwLock::new(Some(done_receiver), Ghost(TakeOnceInv {})),
            },
        )
    }

    /// Reports whether the worker's unit of work is still executing, by
    /// observing whether the worker still holds its strong handle to the
    /// interruption flag. Never blocks. The observation is made the instant
    /// the call runs: a `Running` worker may terminate right afterwards.
    pub fn status(&self) -> (status: ThreadStatus) {
        let strong = crate::flag::upgrade(&self.interrupted);
        status_from_liveness(strong.is_some())
    }

    /// Requests cooperative interruption. If the worker has already
    /// terminated, reports `NotRunningError`; otherwise atomically sets the
    /// interruption flag from `false` to `true` and returns the value the
    /// flag held before the call (`false`: this call was the first to set
    /// it). Never blocks; the worker reacts, or not, at its own pace.
    /// Everything past the liveness observation itself is
    /// [`interrupt_from_observation`], which carries the exact contract.
    pub fn interrupt(&self) -> (result: Result<bool, NotRunningError>) {
        interrupt_from_observation(crate::flag::upgrade(&self.interrupted))
    }

    /// Blocks until the worker has delivered its outcome and hands it to
    /// exactly one caller: the first call extracts `Some` of the result, or
    /// `Some(Err(PanicPayload))` carrying the panic's message if the unit of
    /// work terminated abnormally; every later call returns `None`. A
    /// successful value is guaranteed to satisfy the unit of work's
    /// postcondition.
    pub fn join(&self) -> (outcome: Option<Result<T, PanicPayload>>)
        ensures
            (outcome matches Some(Ok(ret)) ==> (self.post())(ret)),
    {
        let read_handle = self.join_handle.acquire_read();
        let present = read_handle.borrow().is_some();
        read_handle.release_read();
        if !present {
            return None;
        }
        let (receiver_slot, receiver_write) = self.join_handle.acquire_write();
        receiver_write.release_write(None);
        match receiver_slot {
            Some(wrapped) => {
                crate::native::wait_until_disconnected(crate::native::take_receiver(wrapped));
                let (slot, outcome_write) = self.outcome.acquire_write();
                outcome_write.release_write(None);
                match slot {
                    Some(delivered) => Some(delivered),
                    // Unreachable in practice: termination is signalled only
                    // after a delivery. Report it as an abnormal end.
                    None => Some(Err(PanicPayload { message: None })),
                }
            },
            None => None,
        }
    }
}

/// Law: a value that `join` hands back as a success from a handle spawned
/// with `runnable` is a result the unit of work itself can produce for some
/// interruption flag: handles never invent values. The first premise is what
/// `spawn` ensures of the handle it returns, the second what `join` ensures
/// of a successful outcome.
pub proof fn lemma_join_success_comes_from_work<T, F>(
    handle: ThreadHandle<T>,
    runnable: F,
    ret: T,
) where
    T: Send + Sync + 'static,
    F: FnOnce(Arc<AtomicBool>) -> T,

    requires
        forall|v: T| #[trigger] (handle.post())(v) ==> exists|interrupted: Arc<AtomicBool>|
            call_ensures(runnable, (interrupted,), v),
        (handle.post())(ret),
    ensures
        exists|interrupted: Arc<AtomicBool>| call_ensures(runnable, (interrupted,), ret),
{
}

/// Maps a liveness observation of the worker to its reported status:
/// `Running` exactly when the worker's unit of work was seen alive.
pub fn status_from_liveness(alive: bool) -> (status: ThreadStatus)
    ensures
        alive ==> status == ThreadStatus::Running,
        !alive ==> status == ThreadStatus::Terminated,
{
    if alive {
        ThreadStatus::Running
    } else {
        ThreadStatus::Terminated
    }
}

/// The whole of `interrupt` past the liveness observation: on a live
/// observation (the flag cell could still be upgraded), atomically sets the
/// flag from `false` to `true` and succeeds with the decoded previous value;
/// on a dead one, fails with `NotRunningError` and changes nothing. The
/// result is an error exactly when the observation was dead.
pub fn interrupt_from_observation(upgraded: Option<Arc<AtomicBool>>) -> (result: Result<
    bool,
    NotRunningError,
>)
    ensures
        result is Err <==> upgraded is None,
{
    match upgraded {
        Some(interrupted_flag) => {
            let outcome = interrupted_flag.compare_exchange(
                false,
                true,
                Ordering::Relaxed,
                Ordering::Relaxed,
            );
            Ok(previous_value(outcome))
        },
        None => Err(NotRunningError),
    }
}

/// Decodes the outcome of an atomic compare-and-set into the value the flag
/// held immediately before the operation: both branches carry that value.
pub fn previous_value(outcome: Result<bool, bool>) -> (previous: bool)
    ensures
        (outcome matches Ok(value) ==> previous == value),
        (outcome matches Err(value) ==> previous == value),
{
    match outcome {
        Ok(value) => value,
        Err(value) => value,
    }
}

/// Worker-side poll of the interruption flag the unit of work received at
/// spawn: reports the value the flag held the instant of the load. A worker
/// that polls this in its loop terminates cooperatively once `interrupt` has
/// set the flag, since the flag is never cleared.
pub fn is_interrupted(interrupted_flag: &Arc<AtomicBool>) -> bool {
    interrupted_flag.load(Ordering::Relaxed)
}

} // verus!
