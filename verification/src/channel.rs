//! The channels the cell is built on: crossbeam's multi-producer channels and
//! tokio's one-shot channel, each half carrying the identity of its channel.
//!
//! A channel is state shared between threads: what a receive yields, and
//! whether a send finds its receiver still alive, depends on what other threads
//! do. What can be said of every outcome is said here: the two halves of a new
//! channel carry one identity and the channel's capacity, a clone keeps them,
//! and every send or receive comes with a receipt naming the channel and the
//! message: `Queued` when a send went through, `Refused` when the channel
//! turned it away, `Received` for a receive. A channel is made with a
//! `CountingReceiver`, which numbers its receives, so that a receipt can tell
//! the first receive on a channel from a later one. Only this module makes receipts,
//! and only where the transfer was tried. The identities model which halves
//! belong together; nothing is claimed about the identities of two different
//! channels.
use vstd::prelude::*;

verus! {

/// The sending half of a crossbeam channel (`crossbeam::channel::Sender`).
#[verifier::external_type_specification]
#[verifier::external_body]
#[verifier::reject_recursive_types(T)]
pub struct ExSender<T>(crossbeam::channel::Sender<T>);

/// The receiving half of a crossbeam channel (`crossbeam::channel::Receiver`).
#[verifier::external_type_specification]
#[verifier::external_body]
#[verifier::reject_recursive_types(T)]
pub struct ExReceiver<T>(crossbeam::channel::Receiver<T>);

/// The sending half of a tokio one-shot channel (`tokio::sync::oneshot::Sender`).
#[verifier::external_type_specification]
#[verifier::external_body]
#[verifier::reject_recursive_types(T)]
pub struct ExOneshotSender<T>(tokio::sync::oneshot::Sender<T>);

/// The receiving half of a tokio one-shot channel (`tokio::sync::oneshot::Receiver`).
#[verifier::external_type_specification]
#[verifier::external_body]
#[verifier::reject_recursive_types(T)]
pub struct ExOneshotReceiver<T>(tokio::sync::oneshot::Receiver<T>);

/// The error of awaiting a tokio one-shot receiver whose sender is gone
/// (`tokio::sync::oneshot::error::RecvError`). It stands in the receiver's
/// `Future` output, so Verus asks for it once the receiver is declared.
#[verifier::external_type_specification]
#[verifier::external_body]
pub struct ExOneshotRecvError(tokio::sync::oneshot::error::RecvError);

/// Receipt of a message queued on a channel.
pub struct Queued<M> {
    chan: Ghost<int>,
    msg: Ghost<M>,
}

impl<M> Queued<M> {
    /// The channel the message went into.
    pub closed spec fn chan(self) -> int {
        self.chan@
    }

    /// The message queued.
    pub closed spec fn msg(self) -> M {
        self.msg@
    }
}

/// Receipt of a send that the channel turned away because nobody receives on
/// it any more; it holds the message, which goes back to the sender.
pub struct Refused<M> {
    back: M,
    chan: Ghost<int>,
}

impl<M> Refused<M> {
    /// The channel that turned the message away.
    pub closed spec fn chan(self) -> int {
        self.chan@
    }

    /// The message turned away.
    pub closed spec fn msg(self) -> M {
        self.back
    }

    /// The message turned away, handed back.
    pub fn into_inner(self) -> (m: M)
        ensures
            m == self.msg(),
    {
        self.back
    }
}

/// Receipt of a receive on a channel: the message taken from it, or `None`
/// when the channel was found empty with every sender gone; and, for a receive
/// through a `CountingReceiver`, how many receives that receiver made before.
pub struct Received<M> {
    chan: Ghost<int>,
    msg: Ghost<Option<M>>,
    index: Ghost<Option<nat>>,
}

impl<M> Received<M> {
    /// The channel received from.
    pub closed spec fn chan(self) -> int {
        self.chan@
    }

    /// What the receive gave.
    pub closed spec fn msg(self) -> Option<M> {
        self.msg@
    }

    /// For a receive through a `CountingReceiver`, the number of receives it
    /// made before this one: `Some(0)` is the first receive on its channel.
    pub closed spec fn index(self) -> Option<nat> {
        self.index@
    }
}

/// The sending half of a crossbeam channel, with the channel's identity and
/// capacity (`None`: unbounded).
#[verifier::reject_recursive_types(T)]
pub struct QueueSender<T> {
    inner: crossbeam::channel::Sender<T>,
    id: Ghost<int>,
    cap: Ghost<Option<nat>>,
}

/// The receiving half of a crossbeam channel, with the channel's identity and
/// capacity (`None`: unbounded).
#[verifier::reject_recursive_types(T)]
pub struct QueueReceiver<T> {
    inner: crossbeam::channel::Receiver<T>,
    id: Ghost<int>,
    cap: Ghost<Option<nat>>,
}

/// The receiving half of a crossbeam channel that counts its receives. Every
/// channel is made with one; it is the only receiver of its channel until it
/// is turned into a plain `QueueReceiver`, so its count is the number of
/// receives made on the channel.
#[verifier::reject_recursive_types(T)]
pub struct CountingReceiver<T> {
    inner: QueueReceiver<T>,
    taken: Ghost<nat>,
}

impl<T> CountingReceiver<T> {
    /// The channel this half belongs to.
    pub closed spec fn id(self) -> int {
        self.inner.id()
    }

    /// How many messages the channel holds at most; `None` when unbounded.
    pub closed spec fn capacity(self) -> Option<nat> {
        self.inner.capacity()
    }

    /// How many receives this half has made.
    pub closed spec fn taken(self) -> nat {
        self.taken@
    }

    /// Waits for the next message (`Some`), or for the channel to be empty with
    /// every sender gone (`None`); the receipt numbers this receive.
    pub(crate) fn take(&mut self) -> (r: (Option<T>, Received<T>))
        ensures
            r.1.chan() == old(self).id(),
            r.1.msg() == r.0,
            r.1.index() == Some(old(self).taken()),
            final(self).id() == old(self).id(),
            final(self).capacity() == old(self).capacity(),
            final(self).taken() == old(self).taken() + 1,
    {
        let (msg, got) = recv(&self.inner);
        let ghost n = self.taken@;
        self.taken = Ghost(n + 1);
        (msg, Received { chan: got.chan, msg: got.msg, index: Ghost(Some(n)) })
    }

    /// The plain receiving half, which no longer counts.
    pub(crate) fn into_plain(self) -> (r: QueueReceiver<T>)
        ensures
            r.id() == self.id(),
            r.capacity() == self.capacity(),
    {
        self.inner
    }
}

/// The sending half of a tokio one-shot channel, with the channel's identity.
#[verifier::reject_recursive_types(T)]
pub struct OneshotSender<T> {
    inner: tokio::sync::oneshot::Sender<T>,
    id: Ghost<int>,
}

/// The receiving half of a tokio one-shot channel, with the channel's identity.
#[verifier::reject_recursive_types(T)]
pub struct OneshotReceiver<T> {
    inner: tokio::sync::oneshot::Receiver<T>,
    id: Ghost<int>,
}

impl<T> QueueSender<T> {
    /// The channel this half belongs to.
    pub closed spec fn id(self) -> int {
        self.id@
    }

    /// How many messages the channel holds at most; `None` when unbounded.
    pub closed spec fn capacity(self) -> Option<nat> {
        self.cap@
    }
}

impl<T> QueueReceiver<T> {
    /// The channel this half belongs to.
    pub closed spec fn id(self) -> int {
        self.id@
    }

    /// How many messages the channel holds at most; `None` when unbounded.
    pub closed spec fn capacity(self) -> Option<nat> {
        self.cap@
    }

    /// Waits for the next message (`Some`), or for the channel to be empty with
    /// every sender gone (`None`).
    pub fn receive(&self) -> (r: (Option<T>, Received<T>))
        ensures
            r.1.chan() == self.id(),
            r.1.msg() == r.0,
    {
        recv(self)
    }
}

impl<T> OneshotSender<T> {
    /// The channel this half belongs to.
    pub closed spec fn id(self) -> int {
        self.id@
    }
}

impl<T> OneshotReceiver<T> {
    /// The channel this half belongs to.
    pub closed spec fn id(self) -> int {
        self.id@
    }

    /// The tokio receiver, to be awaited.
    pub fn into_tokio(self) -> tokio::sync::oneshot::Receiver<T> {
        self.inner
    }
}

/// Calls `crossbeam::channel::unbounded`, which makes a new channel with a
/// growable buffer. Claimed: both halves carry one identity, and the channel
/// is unbounded.
#[verifier::external_body]
pub(crate) fn unbounded<T>() -> (pair: (QueueSender<T>, CountingReceiver<T>))
    ensures
        pair.0.id() == pair.1.id(),
        pair.0.capacity() == None::<nat>,
        pair.1.capacity() == None::<nat>,
        pair.1.taken() == 0,
{
    let (s, r) = crossbeam::channel::unbounded();
    (
        QueueSender { inner: s, id: Ghost(0int), cap: Ghost(None) },
        CountingReceiver {
            inner: QueueReceiver { inner: r, id: Ghost(0int), cap: Ghost(None) },
            taken: Ghost(0nat),
        },
    )
}

/// Calls `crossbeam::channel::bounded`, which makes a new channel that holds at
/// most `cap` messages. It panics when `cap` is too large: when the next power
/// of two above `cap` overflows, or when the buffer of `cap` slots cannot be
/// laid out, which depends on the size of `T`; `requires` admits only
/// capacities whose buffer is small whatever `T` is. Claimed: both halves carry
/// one identity and the capacity `cap`.
#[verifier::external_body]
pub(crate) fn bounded<T>(cap: usize) -> (pair: (QueueSender<T>, CountingReceiver<T>))
    requires
        cap <= 1024,
    ensures
        pair.0.id() == pair.1.id(),
        pair.0.capacity() == Some(cap as nat),
        pair.1.capacity() == Some(cap as nat),
        pair.1.taken() == 0,
{
    let (s, r) = crossbeam::channel::bounded(cap);
    (
        QueueSender { inner: s, id: Ghost(0int), cap: Ghost(Some(cap as nat)) },
        CountingReceiver {
            inner: QueueReceiver { inner: r, id: Ghost(0int), cap: Ghost(Some(cap as nat)) },
            taken: Ghost(0nat),
        },
    )
}

/// Calls `crossbeam::channel::Sender::send`, which blocks until the message is
/// queued (`Ok`) or finds the channel disconnected, every receiver gone (`Err`,
/// a `SendError` holding the message it was given). Claimed: `Ok` carries the
/// receipt of that message on this channel; `Err` carries the refusal of that
/// very message by this channel.
#[verifier::external_body]
pub(crate) fn send<T>(sender: &QueueSender<T>, msg: T) -> (r: Result<Queued<T>, Refused<T>>)
    ensures
        r matches Ok(q) ==> q.chan() == sender.id() && q.msg() == msg,
        r matches Err(f) ==> f.chan() == sender.id() && f.msg() == msg,
{
    let ghost m = msg;
    match sender.inner.send(msg) {
        Ok(()) => Ok(Queued { chan: Ghost(sender.id@), msg: Ghost(m) }),
        Err(crossbeam::channel::SendError(back)) => Err(Refused { back, chan: Ghost(sender.id@) }),
    }
}

/// Calls `crossbeam::channel::Receiver::recv`, which blocks until a message
/// arrives (`Some`) or the channel is empty and every sender is gone (`None`).
/// Which of the two comes back depends on other threads. Claimed: the receipt
/// names this channel and what came; it numbers nothing (the numbering is kept
/// by `CountingReceiver`).
#[verifier::external_body]
fn recv<T>(receiver: &QueueReceiver<T>) -> (r: (Option<T>, Received<T>))
    ensures
        r.1.chan() == receiver.id(),
        r.1.msg() == r.0,
        r.1.index() == None::<nat>,
{
    let got = match receiver.inner.recv() {
        Ok(msg) => Some(msg),
        Err(_) => None,
    };
    let ghost g = got;
    (got, Received { chan: Ghost(receiver.id@), msg: Ghost(g), index: Ghost(None) })
}

/// Calls `Clone::clone` on a `crossbeam::channel::Sender`, which gives another
/// handle on the same channel. Claimed: the same identity and capacity.
#[verifier::external_body]
pub(crate) fn clone_sender<T>(sender: &QueueSender<T>) -> (r: QueueSender<T>)
    ensures
        r.id() == sender.id(),
        r.capacity() == sender.capacity(),
{
    QueueSender { inner: sender.inner.clone(), id: Ghost(sender.id@), cap: Ghost(sender.cap@) }
}

/// Calls `tokio::sync::oneshot::channel`, which makes a new channel for a
/// single value. Claimed: both halves carry one identity.
#[verifier::external_body]
pub(crate) fn oneshot_channel<T>() -> (pair: (OneshotSender<T>, OneshotReceiver<T>))
    ensures
        pair.0.id() == pair.1.id(),
{
    let (s, r) = tokio::sync::oneshot::channel();
    (OneshotSender { inner: s, id: Ghost(0int) }, OneshotReceiver { inner: r, id: Ghost(0int) })
}

/// Calls `tokio::sync::oneshot::Sender::send`, which never waits: `Ok` when
/// the receiver is still there, `Err` with the value when it has been dropped.
/// Claimed: `Ok` carries the receipt of that value on this channel; `Err`
/// carries the refusal of that very value by this channel.
#[verifier::external_body]
pub(crate) fn oneshot_send<T>(sender: OneshotSender<T>, value: T) -> (r: Result<Queued<T>, Refused<T>>)
    ensures
        r matches Ok(q) ==> q.chan() == sender.id() && q.msg() == value,
        r matches Err(f) ==> f.chan() == sender.id() && f.msg() == value,
{
    let ghost v = value;
    let ghost c = sender.id@;
    match sender.inner.send(value) {
        Ok(()) => Ok(Queued { chan: Ghost(c), msg: Ghost(v) }),
        Err(back) => Err(Refused { back, chan: Ghost(c) }),
    }
}

} // verus!
