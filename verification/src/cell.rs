//! The handles through which other threads reach the resource: `ThreadCell`,
//! which any number of threads may hold, and `ThreadCellSession`, which gives
//! exclusive access while it is held.
//!
//! Both are generic over the job type `J`, the `FnOnce(&mut T)` that carries an
//! operation to the resource's thread. A caller that waits for an answer hands
//! over, beside the job, the receiving half of the channel on which the job
//! replies. Every request that is queued comes back with its receipt: which
//! message went into which queue, and what was received on which reply channel.
use vstd::prelude::*;

use crate::channel::{
    bounded, clone_sender, oneshot_channel, send, unbounded, CountingReceiver, OneshotReceiver,
    OneshotSender,
    QueueReceiver, QueueSender, Queued, Received, Refused,
};
use crate::manager::{Manager, ManagerMode};

verus! {

/// A request on the main queue of a cell.
#[verifier::reject_recursive_types(J)]
pub enum ThreadCellMessage<J> {
    /// Run this job on the resource.
    Run(J),
    /// Open a session; answer with it on this channel.
    GetSessionSync(QueueSender<ThreadCellSession<J>>),
    /// Open a session; answer with it on this one-shot channel.
    GetSessionAsync(OneshotSender<ThreadCellSession<J>>),
}

/// Why a request got no answer. Either way the resource's thread has ended
/// (it panicked, or its cell was dropped).
#[derive(Debug, Clone, Copy, PartialEq, Eq, Structural)]
pub enum RequestError {
    /// The request could not be queued: nobody serves the queue any more.
    Undelivered,
    /// The request was queued, but its reply channel closed without an answer.
    Unanswered,
}

/// What a request comes to, given whether it was queued and what came back on
/// its reply channel.
pub open spec fn outcome<R>(delivered: bool, answer: Option<R>) -> Result<R, RequestError> {
    if !delivered {
        Err(RequestError::Undelivered)
    } else {
        match answer {
            Some(v) => Ok(v),
            None => Err(RequestError::Unanswered),
        }
    }
}

/// Decides what a request comes to from whether it was queued and what its
/// reply channel gave.
pub fn request_outcome<R>(delivered: bool, answer: Option<R>) -> (r: Result<R, RequestError>)
    ensures
        r == outcome(delivered, answer),
{
    if !delivered {
        Err(RequestError::Undelivered)
    } else {
        match answer {
            Some(v) => Ok(v),
            None => Err(RequestError::Unanswered),
        }
    }
}

/// What came of a request that waits for its answer.
pub struct Exchange<M, R> {
    /// The answer, or why there is none.
    pub answer: Result<R, RequestError>,
    /// The receipt of the request: queued, or turned away by the queue.
    pub request: Result<Queued<M>, Refused<M>>,
    /// The receipt of the wait on the reply channel, when it was waited on.
    pub reply: Option<Received<R>>,
}

/// `x` is what comes of queueing `msg` on the channel `queue` and then
/// waiting on the channel `reply`: either `queue` turned `msg` away, nothing was
/// waited for and the request is undelivered; or `msg` went into `queue`, the
/// answer is what the first receive on `reply` gave, and it decides the
/// result.
pub open spec fn exchanged<M, R>(x: Exchange<M, R>, queue: int, msg: M, reply: int) -> bool {
    match x.request {
        Ok(q) => {
            &&& q.chan() == queue
            &&& q.msg() == msg
            &&& x.reply matches Some(g) && g.chan() == reply && g.index() == Some(0nat)
                && x.answer == outcome(true, g.msg())
        },
        Err(f) => {
            &&& f.chan() == queue
            &&& f.msg() == msg
            &&& x.reply is None
            &&& x.answer == Err::<R, RequestError>(RequestError::Undelivered)
        },
    }
}

/// The request that `x` tried to queue.
pub open spec fn requested<M, R>(x: Exchange<M, R>) -> M {
    match x.request {
        Ok(q) => q.msg(),
        Err(f) => f.msg(),
    }
}

/// Queues `msg` on `sender` and waits for the answer on `reply`.
fn send_and_wait<M, R>(sender: &QueueSender<M>, msg: M, reply: &mut CountingReceiver<R>) -> (x:
    Exchange<M, R>)
    requires
        old(reply).taken() == 0,
    ensures
        exchanged(x, sender.id(), msg, old(reply).id()),
{
    match send(sender, msg) {
        Ok(queued) => {
            let (answer, got) = reply.take();
            Exchange {
                answer: request_outcome(true, answer),
                request: Ok(queued),
                reply: Some(got),
            }
        },
        Err(refused) => Exchange {
            answer: request_outcome(false, None),
            request: Err(refused),
            reply: None,
        },
    }
}

/// Makes the channel on which a job answers a waiting caller: it holds the
/// single reply.
pub fn reply_channel<R>() -> (pair: (QueueSender<R>, QueueReceiver<R>))
    ensures
        pair.0.id() == pair.1.id(),
        pair.0.capacity() == Some(1nat),
        pair.1.capacity() == Some(1nat),
{
    let (tx, rx) = bounded(1);
    (tx, rx.into_plain())
}

/// Makes the one-shot channel on which a job answers a caller that awaits it.
pub fn reply_oneshot<R>() -> (pair: (OneshotSender<R>, OneshotReceiver<R>))
    ensures
        pair.0.id() == pair.1.id(),
{
    oneshot_channel()
}

/// A handle on a resource that lives on a thread of its own. Every request
/// goes, as a message, to the one thread that owns the resource; the handle
/// can be cloned and shared across threads.
#[verifier::reject_recursive_types(J)]
pub struct ThreadCell<J> {
    sender: QueueSender<ThreadCellMessage<J>>,
}

impl<J> Clone for ThreadCell<J> {
    /// Another handle on the same cell.
    fn clone(&self) -> (c: Self)
        ensures
            c.queue_id() == self.queue_id(),
    {
        ThreadCell { sender: clone_sender(&self.sender) }
    }
}

impl<J> ThreadCell<J> {
    /// The cell's main queue.
    pub closed spec fn queue_id(self) -> int {
        self.sender.id()
    }

    /// Makes a cell: the handle, and the manager that is to serve its queue on
    /// the resource's thread. The manager starts out serving the main queue,
    /// which is the queue the handle sends to.
    pub fn create() -> (pair: (ThreadCell<J>, Manager<J>))
        ensures
            pair.1@.mode == ManagerMode::Serving,
            pair.1@.main_queue == pair.0.queue_id(),
    {
        let (tx, rx) = unbounded();
        (ThreadCell { sender: tx }, Manager::serving(rx))
    }

    /// Queues `job` to run on the resource, without waiting for it. `Err` is
    /// the queue's refusal: nobody serves it any more.
    pub fn send_run(&self, job: J) -> (r: Result<
        Queued<ThreadCellMessage<J>>,
        Refused<ThreadCellMessage<J>>,
    >)
        ensures
            r matches Ok(q) ==> q.chan() == self.queue_id() && q.msg() == ThreadCellMessage::Run(
                job,
            ),
            r matches Err(f) ==> f.chan() == self.queue_id() && f.msg() == ThreadCellMessage::Run(
                job,
            ),
    {
        send(&self.sender, ThreadCellMessage::Run(job))
    }

    /// Runs `f` through the cell without waiting: makes a one-shot reply
    /// channel, lets `pack` make the job out of `f` and the channel's sender,
    /// and queues the job on the cell's queue. The answer comes on the
    /// returned receiver.
    pub fn request_run<R, F, P: FnOnce(F, OneshotSender<R>) -> J>(&self, f: F, pack: P) -> (r:
        Result<(Queued<ThreadCellMessage<J>>, OneshotReceiver<R>), Refused<ThreadCellMessage<J>>>)
        requires
            forall|tx: OneshotSender<R>| #[trigger] pack.requires((f, tx)),
        ensures
            exists|tx: OneshotSender<R>, job: J|
                #![trigger pack.ensures((f, tx), job)]
                pack.ensures((f, tx), job) && match r {
                    Ok(pair) => pair.0.chan() == self.queue_id() && pair.0.msg()
                        == ThreadCellMessage::Run(job) && pair.1.id() == tx.id(),
                    Err(refused) => refused.chan() == self.queue_id() && refused.msg()
                        == ThreadCellMessage::Run(job),
                },
    {
        let (tx, rx) = oneshot_channel();
        let ghost reply_tx = tx;
        let job = pack(f, tx);
        let ghost packed = job;
        let r = match self.send_run(job) {
            Ok(queued) => Ok((queued, rx)),
            Err(refused) => Err(refused),
        };
        assert(pack.ensures((f, reply_tx), packed));
        r
    }

    /// Runs `f` through the cell and waits for its answer: makes the reply
    /// channel, lets `pack` make the job out of `f` and the reply channel's
    /// sender, queues the job on the cell's queue, and waits on the reply
    /// channel.
    pub fn run_blocking<R, F, P: FnOnce(F, QueueSender<R>) -> J>(&self, f: F, pack: P) -> (x:
        Exchange<ThreadCellMessage<J>, R>)
        requires
            forall|tx: QueueSender<R>| #[trigger] pack.requires((f, tx)),
        ensures
            exists|tx: QueueSender<R>, job: J|
                #![trigger pack.ensures((f, tx), job)]
                tx.capacity() == Some(1nat) && pack.ensures((f, tx), job) && exchanged(
                    x,
                    self.queue_id(),
                    ThreadCellMessage::Run(job),
                    tx.id(),
                ),
    {
        let (tx, mut rx) = bounded(1);
        let ghost reply_tx = tx;
        let job = pack(f, tx);
        let ghost packed = job;
        let x = send_and_wait(&self.sender, ThreadCellMessage::Run(job), &mut rx);
        assert(pack.ensures((f, reply_tx), packed));
        x
    }

    /// Asks for a session on the cell's queue and waits until the resource's
    /// thread grants it: the request names a fresh reply channel, and the
    /// session is taken from that channel.
    pub fn session_blocking(&self) -> (x: Exchange<ThreadCellMessage<J>, ThreadCellSession<J>>)
        ensures
            requested(x) matches ThreadCellMessage::GetSessionSync(tx) && exchanged(
                x,
                self.queue_id(),
                requested(x),
                tx.id(),
            ),
    {
        let (tx, mut rx) = bounded(1);
        send_and_wait(&self.sender, ThreadCellMessage::GetSessionSync(tx), &mut rx)
    }

    /// Asks for a session on the cell's queue without waiting: the session
    /// comes on the returned one-shot receiver, whose sender the request names,
    /// once the resource's thread grants it. `Err` is the queue's refusal of
    /// the request.
    pub fn request_session(&self) -> (r: Result<
        (Queued<ThreadCellMessage<J>>, OneshotReceiver<ThreadCellSession<J>>),
        Refused<ThreadCellMessage<J>>,
    >)
        ensures
            r matches Ok(pair) ==> pair.0.chan() == self.queue_id() && (pair.0.msg() matches ThreadCellMessage::GetSessionAsync(
                tx,
            ) && tx.id() == pair.1.id()),
            r matches Err(f) ==> f.chan() == self.queue_id() && f.msg() is GetSessionAsync,
    {
        let (tx, rx) = oneshot_channel();
        match send(&self.sender, ThreadCellMessage::GetSessionAsync(tx)) {
            Ok(queued) => Ok((queued, rx)),
            Err(refused) => Err(refused),
        }
    }
}

/// Exclusive access to the resource. While a session is open, the resource's
/// thread serves only the session's jobs; requests on the cell wait until every
/// handle on the session is dropped. Asking the cell for a second session while
/// holding one therefore never returns.
#[verifier::reject_recursive_types(J)]
pub struct ThreadCellSession<J> {
    sender: QueueSender<J>,
}

impl<J> ThreadCellSession<J> {
    /// The queue this session's jobs go to.
    pub closed spec fn queue_id(self) -> int {
        self.sender.id()
    }

    /// A session whose jobs go to `sender`.
    pub(crate) fn new(sender: QueueSender<J>) -> (session: Self)
        ensures
            session.queue_id() == sender.id(),
    {
        ThreadCellSession { sender }
    }

    /// Queues `job` to run on the resource within the session, without
    /// waiting. `Err` is the session queue's refusal: nobody serves it any more.
    pub fn send_run(&self, job: J) -> (r: Result<Queued<J>, Refused<J>>)
        ensures
            r matches Ok(q) ==> q.chan() == self.queue_id() && q.msg() == job,
            r matches Err(f) ==> f.chan() == self.queue_id() && f.msg() == job,
    {
        send(&self.sender, job)
    }

    /// Runs `f` within the session without waiting: makes a one-shot reply
    /// channel, lets `pack` make the job out of `f` and the channel's sender,
    /// and queues the job on the session's queue. The answer comes on the
    /// returned receiver.
    pub fn request_run<R, F, P: FnOnce(F, OneshotSender<R>) -> J>(&self, f: F, pack: P) -> (r:
        Result<(Queued<J>, OneshotReceiver<R>), Refused<J>>)
        requires
            forall|tx: OneshotSender<R>| #[trigger] pack.requires((f, tx)),
        ensures
            exists|tx: OneshotSender<R>, job: J|
                #![trigger pack.ensures((f, tx), job)]
                pack.ensures((f, tx), job) && match r {
                    Ok(pair) => pair.0.chan() == self.queue_id() && pair.0.msg() == job
                        && pair.1.id() == tx.id(),
                    Err(refused) => refused.chan() == self.queue_id() && refused.msg() == job,
                },
    {
        let (tx, rx) = oneshot_channel();
        let ghost reply_tx = tx;
        let job = pack(f, tx);
        let ghost packed = job;
        let r = match self.send_run(job) {
            Ok(queued) => Ok((queued, rx)),
            Err(refused) => Err(refused),
        };
        assert(pack.ensures((f, reply_tx), packed));
        r
    }

    /// Runs `f` within the session and waits for its answer: makes the reply
    /// channel, lets `pack` make the job out of `f` and the reply channel's
    /// sender, queues the job on the session's queue, and waits on the reply
    /// channel.
    pub fn run_blocking<R, F, P: FnOnce(F, QueueSender<R>) -> J>(&self, f: F, pack: P) -> (x:
        Exchange<J, R>)
        requires
            forall|tx: QueueSender<R>| #[trigger] pack.requires((f, tx)),
        ensures
            exists|tx: QueueSender<R>, job: J|
                #![trigger pack.ensures((f, tx), job)]
                tx.capacity() == Some(1nat) && pack.ensures((f, tx), job) && exchanged(
                    x,
                    self.queue_id(),
                    job,
                    tx.id(),
                ),
    {
        let (tx, mut rx) = bounded(1);
        let ghost reply_tx = tx;
        let job = pack(f, tx);
        let ghost packed = job;
        let x = send_and_wait(&self.sender, job, &mut rx);
        assert(pack.ensures((f, reply_tx), packed));
        x
    }
}

} // verus!
