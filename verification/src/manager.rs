//! The decisions of the thread that owns the resource.
//!
//! That thread listens on one queue at a time: the cell's main queue, or, while
//! a session is open, the session's queue. Each thing it receives is an event,
//! with the receipt of the receive; `Manager::handle` decides and performs what
//! the event calls for: run a job, open a session, close it, or stop. The
//! thread's loop, which waits for the next event for as long as the cell lives,
//! stands outside the library.
use vstd::prelude::*;

use crate::cell::{ThreadCellMessage, ThreadCellSession};
use crate::channel::{oneshot_send, send, unbounded, CountingReceiver, Queued, Received, Refused};
use crate::resource::{job_ready, run_job};

verus! {

/// Which queue the resource's thread serves.
#[derive(Debug, Clone, Copy, PartialEq, Eq, Structural)]
pub enum ManagerMode {
    /// The cell's main queue.
    Serving,
    /// The queue of the open session; the main queue waits.
    InSession,
    /// Nothing: every handle on the cell is gone.
    Stopped,
}

/// What the resource's thread received, with the receipt of the receive.
#[verifier::reject_recursive_types(J)]
pub enum ManagerEvent<J> {
    /// A message from the main queue, or `None` once every cell handle is gone.
    Main(Option<ThreadCellMessage<J>>, Received<ThreadCellMessage<J>>),
    /// A job from the session queue, or `None` once every session handle is gone.
    Session(Option<J>, Received<J>),
}

/// What the resource's thread does after an event.
#[verifier::reject_recursive_types(J)]
pub enum Next<J> {
    /// Go on listening on the queue now served.
    Listen,
    /// Go on listening, now to the session just granted; the receipt is that
    /// of the session handed to the one who asked for it.
    Granted(Queued<ThreadCellSession<J>>),
    /// Stop: every handle on the cell is gone.
    Stop,
}

/// Why the resource's thread cannot go on.
#[verifier::reject_recursive_types(J)]
pub enum ManagerError<J> {
    /// A session was asked for, but the asker stopped waiting before it was
    /// granted: its channel turned the session away.
    SessionRequesterGone(Refused<ThreadCellSession<J>>),
}

/// The state of the resource's thread: the queue it serves, the cell's main
/// queue and how many receives were made on it, and the queue of the open
/// session and how many receives were made on that.
pub struct ManagerView {
    pub mode: ManagerMode,
    pub main_queue: int,
    pub main_taken: nat,
    pub session_queue: Option<int>,
    pub session_taken: nat,
}

/// `event` can be received in `mode`: main-queue events while serving the main
/// queue, session events while a session is open, none once stopped.
pub open spec fn event_fits<J>(mode: ManagerMode, event: ManagerEvent<J>) -> bool {
    match event {
        ManagerEvent::Main(..) => mode == ManagerMode::Serving,
        ManagerEvent::Session(..) => mode == ManagerMode::InSession,
    }
}

/// `event` was received on the queue that `view` serves, as the next receive
/// on that queue, and holds what the receive gave.
pub open spec fn event_received<J>(view: ManagerView, event: ManagerEvent<J>) -> bool {
    match event {
        ManagerEvent::Main(msg, got) => {
            &&& got.chan() == view.main_queue
            &&& got.index() == Some(view.main_taken)
            &&& got.msg() == msg
        },
        ManagerEvent::Session(job, got) => {
            &&& view.session_queue == Some(got.chan())
            &&& got.index() == Some(view.session_taken)
            &&& got.msg() == job
        },
    }
}

/// The number of the receive that gave `event` on its queue.
pub open spec fn event_index<J>(event: ManagerEvent<J>) -> Option<nat> {
    match event {
        ManagerEvent::Main(_, got) => got.index(),
        ManagerEvent::Session(_, got) => got.index(),
    }
}

/// `view` after one more receive on the queue that gave `event`.
pub open spec fn after_receive<J>(view: ManagerView, event: ManagerEvent<J>) -> ManagerView {
    match event {
        ManagerEvent::Main(..) => ManagerView { main_taken: view.main_taken + 1, ..view },
        ManagerEvent::Session(..) => ManagerView { session_taken: view.session_taken + 1, ..view },
    }
}

/// `event` asks for a session.
pub open spec fn is_session_request<J>(event: ManagerEvent<J>) -> bool {
    match event {
        ManagerEvent::Main(Some(ThreadCellMessage::GetSessionSync(_)), _) => true,
        ManagerEvent::Main(Some(ThreadCellMessage::GetSessionAsync(_)), _) => true,
        _ => false,
    }
}

/// The channel on which a session request wants its answer.
pub open spec fn responder_id<J>(event: ManagerEvent<J>) -> int {
    match event {
        ManagerEvent::Main(Some(ThreadCellMessage::GetSessionSync(tx)), _) => tx.id(),
        ManagerEvent::Main(Some(ThreadCellMessage::GetSessionAsync(tx)), _) => tx.id(),
        _ => 0,
    }
}

/// The job that `event` carries, if it carries one.
pub open spec fn event_job<J>(event: ManagerEvent<J>) -> Option<J> {
    match event {
        ManagerEvent::Main(Some(ThreadCellMessage::Run(job)), _) => Some(job),
        ManagerEvent::Session(Some(job), _) => Some(job),
        _ => None,
    }
}

/// What the thread does after `event` when no session is being granted: it
/// stops once every handle on the cell is gone, and otherwise listens on.
pub open spec fn next_step<J>(event: ManagerEvent<J>) -> Next<J> {
    if event matches ManagerEvent::Main(None, _) {
        Next::Stop
    } else {
        Next::Listen
    }
}

/// The queue served after `event` is handled in `mode`; `granted` tells whether
/// a requested session reached the one who asked for it.
pub open spec fn next_mode<J>(mode: ManagerMode, event: ManagerEvent<J>, granted: bool) -> ManagerMode {
    match event {
        ManagerEvent::Main(Some(ThreadCellMessage::Run(_)), _) => mode,
        ManagerEvent::Main(Some(_), _) => if granted {
            ManagerMode::InSession
        } else {
            mode
        },
        ManagerEvent::Main(None, _) => ManagerMode::Stopped,
        ManagerEvent::Session(Some(_), _) => mode,
        ManagerEvent::Session(None, _) => ManagerMode::Serving,
    }
}

/// The state of the thread that owns the resource: the main queue, and the
/// session queue while a session is open.
#[verifier::reject_recursive_types(J)]
pub struct Manager<J> {
    queue: CountingReceiver<ThreadCellMessage<J>>,
    session: Option<CountingReceiver<J>>,
    stopped: bool,
}

impl<J> View for Manager<J> {
    type V = ManagerView;

    closed spec fn view(&self) -> ManagerView {
        ManagerView {
            mode: if self.stopped {
                ManagerMode::Stopped
            } else if self.session is Some {
                ManagerMode::InSession
            } else {
                ManagerMode::Serving
            },
            main_queue: self.queue.id(),
            main_taken: self.queue.taken(),
            session_queue: match self.session {
                Some(jobs) => Some(jobs.id()),
                None => None,
            },
            session_taken: match self.session {
                Some(jobs) => jobs.taken(),
                None => 0,
            },
        }
    }
}

impl<J> Manager<J> {
    /// A manager serving `queue`.
    pub(crate) fn serving(queue: CountingReceiver<ThreadCellMessage<J>>) -> (m: Self)
        ensures
            m@.mode == ManagerMode::Serving,
            m@.main_queue == queue.id(),
            m@.main_taken == queue.taken(),
    {
        Manager { queue, session: None, stopped: false }
    }

    /// The queue now served.
    pub fn mode(&self) -> (m: ManagerMode)
        ensures
            m == self@.mode,
    {
        if self.stopped {
            ManagerMode::Stopped
        } else if self.session.is_some() {
            ManagerMode::InSession
        } else {
            ManagerMode::Serving
        }
    }

    /// Waits for the next event on the queue now served: the next receive on
    /// that queue.
    pub fn next_event(&mut self) -> (event: ManagerEvent<J>)
        requires
            old(self)@.mode != ManagerMode::Stopped,
        ensures
            event_fits(old(self)@.mode, event),
            event_received(old(self)@, event),
            final(self)@ == after_receive(old(self)@, event),
    {
        match self.session.take() {
            Some(mut jobs) => {
                let (job, got) = jobs.take();
                self.session = Some(jobs);
                ManagerEvent::Session(job, got)
            },
            None => {
                let (msg, got) = self.queue.take();
                ManagerEvent::Main(msg, got)
            },
        }
    }

    /// Serves the session queue `jobs` from now on if the session reached the
    /// one who asked for it; otherwise reports that the asker is gone.
    fn open_session(
        &mut self,
        jobs: CountingReceiver<J>,
        delivery: Result<Queued<ThreadCellSession<J>>, Refused<ThreadCellSession<J>>>,
    ) -> (r: Result<Next<J>, ManagerError<J>>)
        requires
            old(self)@.mode == ManagerMode::Serving,
        ensures
            r == match delivery {
                Ok(q) => Ok::<Next<J>, ManagerError<J>>(Next::Granted(q)),
                Err(f) => Err(ManagerError::SessionRequesterGone(f)),
            },
            final(self)@ == match delivery {
                Ok(_) => ManagerView {
                    mode: ManagerMode::InSession,
                    session_queue: Some(jobs.id()),
                    session_taken: jobs.taken(),
                    ..old(self)@
                },
                Err(_) => old(self)@,
            },
    {
        match delivery {
            Ok(q) => {
                self.session = Some(jobs);
                Ok(Next::Granted(q))
            },
            Err(f) => Err(ManagerError::SessionRequesterGone(f)),
        }
    }

    /// Acts on `event`: runs the job it carries on `resource`, opens a session,
    /// closes the session, or stops.
    pub fn handle<T>(&mut self, event: ManagerEvent<J>, resource: &mut T) -> (r: Result<
        Next<J>,
        ManagerError<J>,
    >) where J: FnOnce(&mut T)
        requires
            event_fits(old(self)@.mode, event),
            event_job(event) matches Some(job) ==> job_ready::<T, J>(job),
        ensures
            final(self)@.mode == next_mode(old(self)@.mode, event, r matches Ok(Next::Granted(_))),
            final(self)@.main_queue == old(self)@.main_queue,
            final(self)@.main_taken == old(self)@.main_taken,
            !is_session_request(event) ==> r == Ok::<Next<J>, ManagerError<J>>(next_step(event)),
            is_session_request(event) ==> match r {
                Ok(Next::Granted(q)) => q.chan() == responder_id(event)
                    && final(self)@.session_queue == Some(q.msg().queue_id())
                    && final(self)@.session_taken == 0,
                Ok(_) => false,
                Err(ManagerError::SessionRequesterGone(f)) => f.chan() == responder_id(event)
                    && final(self)@ == old(self)@,
            },
            event matches ManagerEvent::Session(Some(_), _) ==> final(self)@ == old(self)@,
            event matches ManagerEvent::Main(Some(ThreadCellMessage::Run(_)), _) ==> final(self)@
                == old(self)@,
            event matches ManagerEvent::Main(Some(ThreadCellMessage::Run(job)), _) ==> exists|
                m: &mut T,
            |
                *m == *old(resource) && *final(m) == *final(resource) && #[trigger] job.ensures(
                    (m,),
                    (),
                ),
            event matches ManagerEvent::Session(Some(job), _) ==> exists|m: &mut T|
                *m == *old(resource) && *final(m) == *final(resource) && #[trigger] job.ensures(
                    (m,),
                    (),
                ),
            event_job(event) is None ==> *final(resource) == *old(resource),
    {
        match event {
            ManagerEvent::Main(Some(ThreadCellMessage::Run(job)), _) => {
                run_job(job, resource);
                Ok(Next::Listen)
            },
            ManagerEvent::Main(Some(ThreadCellMessage::GetSessionSync(responder)), _) => {
                let (jobs_tx, jobs_rx) = unbounded();
                let delivery = send(&responder, ThreadCellSession::new(jobs_tx));
                self.open_session(jobs_rx, delivery)
            },
            ManagerEvent::Main(Some(ThreadCellMessage::GetSessionAsync(responder)), _) => {
                let (jobs_tx, jobs_rx) = unbounded();
                let delivery = oneshot_send(responder, ThreadCellSession::new(jobs_tx));
                self.open_session(jobs_rx, delivery)
            },
            ManagerEvent::Main(None, _) => {
                self.stopped = true;
                Ok(Next::Stop)
            },
            ManagerEvent::Session(Some(job), _) => {
                run_job(job, resource);
                Ok(Next::Listen)
            },
            ManagerEvent::Session(None, _) => {
                self.session = None;
                Ok(Next::Listen)
            },
        }
    }
}

/// While a session is open, the resource's thread takes nothing from the main
/// queue: only the session's jobs reach the resource.
pub proof fn law_session_excludes_main_queue<J>(event: ManagerEvent<J>)
    requires
        event_fits(ManagerMode::InSession, event),
    ensures
        event is Session,
{
}

/// A granted session is the one served: while it lasts, every event the thread
/// takes comes from the very queue that the granted session sends its jobs to,
/// and a job that the session queued is taken from the same queue as every
/// session event.
pub proof fn law_granted_session_is_served<J>(
    view: ManagerView,
    granted: Queued<ThreadCellSession<J>>,
    event: ManagerEvent<J>,
    job: Queued<J>,
)
    requires
        view.mode == ManagerMode::InSession,
        view.session_queue == Some(granted.msg().queue_id()),
        event_fits(view.mode, event),
        event_received(view, event),
        job.chan() == granted.msg().queue_id(),
    ensures
        event matches ManagerEvent::Session(_, got) && got.chan() == granted.msg().queue_id()
            && got.chan() == job.chan(),
{
}

/// Sessions never nest: a session request is taken only while the main queue
/// is served, so one made while a session is held waits until it ends.
pub proof fn law_sessions_do_not_nest<J>(mode: ManagerMode, event: ManagerEvent<J>)
    requires
        event_fits(mode, event),
        is_session_request(event),
    ensures
        mode == ManagerMode::Serving,
{
}

/// A session lasts until every handle on it is gone, and then the main queue is
/// served again.
pub proof fn law_session_ends_only_when_released<J>(event: ManagerEvent<J>, granted: bool)
    requires
        event_fits(ManagerMode::InSession, event),
    ensures
        next_mode(ManagerMode::InSession, event, granted) == if event matches ManagerEvent::Session(
            None,
            _,
        ) {
            ManagerMode::Serving
        } else {
            ManagerMode::InSession
        },
{
}

/// The thread stops exactly when, serving the main queue, it finds every
/// handle on the cell gone; once stopped it takes no further event.
pub proof fn law_stops_only_when_cell_is_gone<J>(
    mode: ManagerMode,
    event: ManagerEvent<J>,
    granted: bool,
)
    requires
        event_fits(mode, event),
    ensures
        next_mode(mode, event, granted) == ManagerMode::Stopped <==> event matches ManagerEvent::Main(
            None,
            _,
        ),
        !event_fits(ManagerMode::Stopped, event),
{
}

/// `events` is what successive calls of `next_event` give, starting from a
/// manager whose view is `view`, with the queue served staying the same.
pub open spec fn received_in_turn<J>(view: ManagerView, events: Seq<ManagerEvent<J>>) -> bool
    decreases events.len(),
{
    if events.len() == 0 {
        true
    } else {
        &&& event_fits(view.mode, events[0])
        &&& event_received(view, events[0])
        &&& received_in_turn(after_receive(view, events[0]), events.drop_first())
    }
}

/// No message is skipped: the events taken in turn from the main queue are its
/// receives numbered one after another from the count the manager started
/// with, so a manager fresh from `ThreadCell::create` takes the main queue's
/// messages as its 0th, 1st, 2nd, ... receive.
pub proof fn law_main_events_are_consecutive<J>(view: ManagerView, events: Seq<ManagerEvent<J>>)
    requires
        received_in_turn(view, events),
        view.mode == ManagerMode::Serving,
    ensures
        forall|i: int|
            0 <= i < events.len() ==> #[trigger] event_index(events[i]) == Some(
                (view.main_taken + i) as nat,
            ),
    decreases events.len(),
{
    if events.len() > 0 {
        let rest = events.drop_first();
        law_main_events_are_consecutive(after_receive(view, events[0]), rest);
        assert forall|i: int| 0 <= i < events.len() implies #[trigger] event_index(events[i])
            == Some((view.main_taken + i) as nat) by {
            if i > 0 {
                assert(events[i] == rest[i - 1]);
            }
        }
    }
}

/// Granting a session takes nothing from the session's queue: the session
/// events taken in turn after the grant are the session queue's receives
/// numbered 0, 1, 2, ..., so every job queued on the granted session reaches
/// the manager, none skipped.
pub proof fn law_session_events_are_consecutive<J>(
    view: ManagerView,
    events: Seq<ManagerEvent<J>>,
)
    requires
        received_in_turn(view, events),
        view.mode == ManagerMode::InSession,
    ensures
        forall|i: int|
            0 <= i < events.len() ==> #[trigger] event_index(events[i]) == Some(
                (view.session_taken + i) as nat,
            ),
    decreases events.len(),
{
    if events.len() > 0 {
        let rest = events.drop_first();
        law_session_events_are_consecutive(after_receive(view, events[0]), rest);
        assert forall|i: int| 0 <= i < events.len() implies #[trigger] event_index(events[i])
            == Some((view.session_taken + i) as nat) by {
            if i > 0 {
                assert(events[i] == rest[i - 1]);
            }
        }
    }
}

} // verus!
