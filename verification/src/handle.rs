//! The command channel: how other threads get work done on the thread that
//! owns the runtime.
//!
//! A `Handle` sends a job together with a channel for its result and waits
//! for the answer. The `Host` takes at most one pending job each time it is
//! asked, and runs it to the end before it answers, so no two jobs, and no
//! job and a step of the plugin, ever run at once. Both channels have no
//! capacity: a sender waits until the host takes its job.

use std::sync::mpsc::{Receiver, SyncSender};
use vstd::prelude::*;

verus! {

/// The receiving end of a std channel.
#[verifier::external_type_specification]
#[verifier::external_body]
#[verifier::reject_recursive_types(T)]
pub struct ExReceiver<T>(Receiver<T>);

/// The sending end of a std channel with bounded capacity.
#[verifier::external_type_specification]
#[verifier::external_body]
#[verifier::reject_recursive_types(T)]
pub struct ExSyncSender<T>(SyncSender<T>);

/// The host is gone: the job was not run, or its result never came.
#[derive(Clone, Copy, Debug, PartialEq, Eq, Structural)]
pub struct ChannelClosed;

/// A job on its way to the host, with the channel for its result.
#[verifier::reject_recursive_types(R)]
pub struct Envelope<J, R> {
    job: J,
    reply: SyncSender<R>,
}

impl<J, R> Envelope<J, R> {
    /// The job that the envelope carries.
    pub closed spec fn job(&self) -> J {
        self.job
    }

    /// The sender of the channel that the result is to go back on.
    pub closed spec fn reply(&self) -> SyncSender<R> {
        self.reply
    }

    /// The envelope that carries `job`, to be answered on `reply`.
    pub fn new(job: J, reply: SyncSender<R>) -> (e: Envelope<J, R>)
        ensures
            e.job() == job,
            e.reply() == reply,
    {
        Envelope { job, reply }
    }

    /// Takes the job out of an envelope that could not be sent.
    pub fn into_job(self) -> (job: J)
        ensures
            job == self.job(),
    {
        self.job
    }
}

/// Opens a channel without capacity: std's `sync_channel(0)`. Nothing is
/// claimed of the two ends.
#[verifier::external_body]
fn rendezvous<T>() -> (r: (SyncSender<T>, Receiver<T>)) {
    std::sync::mpsc::sync_channel(0)
}

/// Sends on a channel, waiting until the value is taken: std's
/// `SyncSender::send`. Gives the value back where the receiver is gone.
/// Which of the two happens is up to the other thread, so nothing is
/// claimed of the result.
#[verifier::external_body]
fn send<T>(tx: &SyncSender<T>, value: T) -> (r: Result<(), T>) {
    tx.send(value).map_err(|error| error.0)
}

/// Waits for a value: std's `Receiver::recv`. `None` where every sender is
/// gone. What arrives is up to the other threads, so nothing is claimed of
/// the result.
#[verifier::external_body]
pub(crate) fn receive<T>(rx: &Receiver<T>) -> (r: Option<T>) {
    rx.recv().ok()
}

/// Takes a value that is waiting to be received, without waiting for one:
/// std's `Receiver::try_recv`. `None` where no value is waiting, and where
/// every sender is gone. Whether one waits is up to the other threads, so
/// nothing is claimed of the result.
#[verifier::external_body]
fn receive_pending<T>(rx: &Receiver<T>) -> (r: Option<T>) {
    rx.try_recv().ok()
}

/// Another sender for the same channel: std's `SyncSender::clone`, which
/// returns a duplicate of the sender it is given. The contract takes the
/// duplicate for the same sender.
#[verifier::external_body]
fn another<T>(tx: &SyncSender<T>) -> (r: SyncSender<T>)
    ensures
        r == *tx,
{
    tx.clone()
}

/// What a submission comes to, given how the send went and what came back:
/// the result where the job was taken and answered, `ChannelClosed` where
/// the host was gone before or after.
pub fn settle<J, R>(sent: Result<(), J>, answer: Option<R>) -> (r: Result<R, ChannelClosed>)
    ensures
        match r {
            Ok(result) => sent is Ok && answer == Some(result),
            Err(_) => sent is Err || answer is None,
        },
{
    match sent {
        Ok(()) => match answer {
            Some(result) => Ok(result),
            None => Err(ChannelClosed),
        },
        Err(_) => Err(ChannelClosed),
    }
}

/// Runs the job that was taken off the channel, if one was, and answers it.
/// Says whether a job was run.
///
/// The job is run to its end by `exec` before the answer is sent. Where no
/// job was taken, nothing is run.
pub fn serve<J, R, F: FnOnce(J) -> R>(taken: Option<Envelope<J, R>>, exec: F) -> (r: bool)
    requires
        forall|job: J| exec.requires((job,)),
    ensures
        r == taken is Some,
        taken matches Some(envelope) ==> exists|result: R| exec.ensures((envelope.job(),), result),
{
    match taken {
        Some(envelope) => {
            let Envelope { job, reply } = envelope;
            let result = exec(job);
            assert(exec.ensures((envelope.job(),), result));
            let _ = send(&reply, result);
            true
        },
        None => false,
    }
}

/// The end of the channel that runs the jobs. It lives on the thread that
/// owns the runtime.
#[verifier::reject_recursive_types(J)]
#[verifier::reject_recursive_types(R)]
pub struct Host<J, R> {
    rx: Receiver<Envelope<J, R>>,
    tx: SyncSender<Envelope<J, R>>,
}

/// The end of the channel that submits jobs. It can be cloned and sent to
/// any thread.
#[verifier::reject_recursive_types(J)]
#[verifier::reject_recursive_types(R)]
pub struct Handle<J, R> {
    tx: SyncSender<Envelope<J, R>>,
}

impl<J, R> Host<J, R> {
    /// The sender of the channel that the host takes its jobs from.
    pub closed spec fn channel(&self) -> SyncSender<Envelope<J, R>> {
        self.tx
    }

    /// A host with no handle yet.
    pub fn new() -> (r: Host<J, R>) {
        let (tx, rx) = rendezvous();
        Host { rx, tx }
    }

    /// A handle that submits to this host.
    pub fn handle(&self) -> (r: Handle<J, R>)
        ensures
            r.channel() == self.channel(),
    {
        Handle { tx: another(&self.tx) }
    }

    /// Takes at most one pending job, runs it with `exec` and answers it,
    /// then returns to the caller's own work. Returns whether a job was
    /// run; none is where no handle is waiting with one.
    ///
    /// The job is run to its end before the answer is sent, and no other job
    /// is taken meanwhile.
    pub fn run<F: FnOnce(J) -> R>(&self, exec: F) -> (r: bool)
        requires
            forall|job: J| exec.requires((job,)),
        ensures
            r ==> exists|job: J, result: R| exec.ensures((job,), result),
    {
        serve(receive_pending(&self.rx), exec)
    }
}

impl<J, R> Handle<J, R> {
    /// The sender of the channel that the handle submits its jobs on.
    pub closed spec fn channel(&self) -> SyncSender<Envelope<J, R>> {
        self.tx
    }

    /// Submits `job` and waits for its result.
    pub fn run(&self, job: J) -> (r: Result<R, ChannelClosed>) {
        let (reply, answers) = rendezvous();
        let sent = match send(&self.tx, Envelope::new(job, reply)) {
            Ok(()) => Ok(()),
            Err(envelope) => Err(envelope.into_job()),
        };
        let answer = match sent {
            Ok(()) => receive(&answers),
            Err(_) => None,
        };
        settle(sent, answer)
    }

    /// Another handle to the same host.
    pub fn clone(&self) -> (r: Handle<J, R>)
        ensures
            r.channel() == self.channel(),
    {
        Handle { tx: another(&self.tx) }
    }
}

} // verus!
