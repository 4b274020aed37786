//! The native pieces the library leans on: launching a worker thread and
//! blocking until it has terminated.
//!
//! Termination is observed through a channel of `()` over which nothing is
//! ever sent: the single sender sits in a shared [`TerminationSignal`] and is
//! dropped — by the worker after delivering its result, or by the panic
//! handler after delivering the failure — strictly after the outcome slot is
//! written, so a blocking receive on the receiver returns exactly when the
//! outcome is in place.

use vstd::prelude::*;

verus! {

use std::sync::mpsc::Receiver;
use std::sync::mpsc::Sender;

/// Declares `rayon::ThreadPool` so that it can stand in signatures.
#[verifier::external_type_specification]
#[verifier::external_body]
pub struct ExThreadPool(rayon::ThreadPool);

/// Declares `std::sync::mpsc::Receiver` so that it can stand in signatures.
#[verifier::external_type_specification]
#[verifier::external_body]
#[verifier::reject_recursive_types(T)]
pub struct ExReceiver<T>(Receiver<T>);

/// The receiving end of a termination channel. The receiver sits behind a
/// mutex solely so that a handle holding it can be shared between threads;
/// the mutex is never locked, only consumed.
#[verifier::external_body]
pub(crate) struct TerminationReceiver {
    receiver: std::sync::Mutex<Receiver<()>>,
}

/// The sending end of a termination channel: holds the channel's only
/// sender. It is shared, so the mutex is real; the sender is only ever taken
/// out and dropped, never used to send.
#[verifier::external_body]
pub(crate) struct TerminationSignal {
    sender: std::sync::Mutex<Option<Sender<()>>>,
}

/// Relies on `std::sync::mpsc::channel`: creates a connected pair; once the
/// signal's sender is dropped, a blocking receive on the receiver no longer
/// waits.
#[verifier::external_body]
pub(crate) fn termination_channel() -> (pair: (TerminationSignal, TerminationReceiver)) {
    let (sender, receiver) = std::sync::mpsc::channel();
    (
        TerminationSignal { sender: std::sync::Mutex::new(Some(sender)) },
        TerminationReceiver { receiver: std::sync::Mutex::new(receiver) },
    )
}

/// Relies on `std::sync::Mutex::lock`: takes the held sender out and drops
/// it, so that a blocked receive on the paired receiver proceeds. Idempotent;
/// a poisoned lock (impossible here: no lock holder panics) would leave the
/// signal unsent.
#[verifier::external_body]
pub(crate) fn signal_termination(signal: &TerminationSignal) {
    if let Ok(mut held) = signal.sender.lock() {
        held.take();
    }
}

/// Relies on `std::sync::Mutex::into_inner`: unwraps the receiver again. The
/// mutex cannot be poisoned, since it is never locked, but a poisoned one
/// would also hand its receiver back.
#[verifier::external_body]
pub(crate) fn take_receiver(wrapped: TerminationReceiver) -> (receiver: Receiver<()>) {
    match wrapped.receiver.into_inner() {
        Ok(receiver) => receiver,
        Err(poisoned) => poisoned.into_inner(),
    }
}

/// Relies on `std::sync::mpsc::Receiver::recv`: blocks the calling thread
/// until a message arrives or every paired sender has been dropped. Nothing
/// is promised of what was observed.
#[verifier::external_body]
pub(crate) fn wait_until_disconnected(receiver: Receiver<()>) {
    let _ = receiver.recv();
}

/// Relies on `rayon::ThreadPoolBuilder`: creates one worker thread carrying
/// `name`, eagerly; if the operating system cannot create the thread, the
/// error is returned and no worker runs. `on_panic` is installed as the
/// pool's panic handler: whenever work run on the pool panics, it is called
/// on the worker thread with the panic's message, after the work's own
/// values have been dropped.
#[verifier::external_body]
pub(crate) fn build_worker_pool<G>(name: String, on_panic: G) -> (result: Result<
    rayon::ThreadPool,
    std::io::Error,
>) where
    G: Fn(crate::PanicPayload),
    G: Send + Sync + 'static,

    requires
        forall|payload: crate::PanicPayload| #[trigger] call_requires(on_panic, (payload,)),
{
    rayon::ThreadPoolBuilder::new()
        .num_threads(1)
        .thread_name(move |_| name.clone())
        .panic_handler(move |payload| {
            let message = match payload.downcast_ref::<&str>() {
                Some(text) => Some((*text).to_string()),
                None => payload.downcast_ref::<String>().cloned(),
            };
            on_panic(crate::PanicPayload { message })
        })
        .build()
        .map_err(std::io::Error::other)
}

/// Relies on `rayon::ThreadPool::spawn`: runs `work` exactly once on the
/// pool's worker thread, which has already been created; the pool is dropped
/// here without joining, and the worker runs the queued work to completion
/// independently.
#[verifier::external_body]
pub(crate) fn pool_spawn<F>(pool: rayon::ThreadPool, work: F) where
    F: FnOnce(),
    F: Send + 'static,

    requires
        call_requires(work, ()),
{
    pool.spawn(work);
}

} // verus!
