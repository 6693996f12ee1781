// The manager's decisions, event by event, on the thread that runs the test.
use thread_cell::cell::{request_outcome, RequestError, ThreadCell, ThreadCellMessage};
use thread_cell::channel::QueueSender;
use thread_cell::manager::{Manager, ManagerError, ManagerEvent, ManagerMode, Next};

type Job = Box<dyn FnOnce(&mut u64) + Send>;

fn add(n: u64) -> Job {
    Box::new(move |r: &mut u64| *r += n)
}

fn drain(manager: &mut Manager<Job>, resource: &mut u64) -> usize {
    let mut handled = 0;
    loop {
        let event = manager.next_event();
        handled += 1;
        match manager.handle(event, resource) {
            Ok(Next::Stop) => return handled,
            Ok(_) => {}
            Err(_) => panic!("a session requester left"),
        }
    }
}

#[test]
fn queued_jobs_run_in_order_then_the_manager_stops() {
    let (cell, mut manager) = ThreadCell::<Job>::create();
    assert_eq!(manager.mode(), ManagerMode::Serving);
    assert!(cell.send_run(add(3)).is_ok());
    assert!(cell.send_run(Box::new(|r: &mut u64| *r *= 10)).is_ok());
    assert!(cell.send_run(add(2)).is_ok());
    drop(cell);
    let mut resource = 1u64;
    let handled = drain(&mut manager, &mut resource);
    assert_eq!(handled, 4);
    assert_eq!(resource, 42);
    assert_eq!(manager.mode(), ManagerMode::Stopped);
}

#[test]
fn main_queue_closed_stops_without_touching_the_resource() {
    let (cell, mut manager) = ThreadCell::<Job>::create();
    drop(cell);
    let mut resource = 7u64;
    let event = manager.next_event();
    assert!(matches!(event, ManagerEvent::Main(None, _)));
    assert!(matches!(manager.handle(event, &mut resource), Ok(Next::Stop)));
    assert_eq!(resource, 7);
    assert_eq!(manager.mode(), ManagerMode::Stopped);
}

#[test]
fn a_run_event_applies_its_job_and_keeps_serving() {
    let (cell, mut manager) = ThreadCell::<Job>::create();
    let mut resource = 5u64;
    assert!(cell.send_run(add(4)).is_ok());
    let event = manager.next_event();
    assert!(matches!(event, ManagerEvent::Main(Some(ThreadCellMessage::Run(_)), _)));
    assert!(matches!(manager.handle(event, &mut resource), Ok(Next::Listen)));
    assert_eq!(resource, 9);
    assert_eq!(manager.mode(), ManagerMode::Serving);
}

#[test]
fn a_session_holds_the_main_queue_back_until_released() {
    let (cell, mut manager) = ThreadCell::<Job>::create();
    let mut resource = 0u64;
    let (_queued, granted) = cell.request_session().ok().unwrap();
    let request = manager.next_event();
    assert!(matches!(
        request,
        ManagerEvent::Main(Some(ThreadCellMessage::GetSessionAsync(_)), _)
    ));
    assert!(matches!(manager.handle(request, &mut resource), Ok(Next::Granted(_))));
    assert_eq!(manager.mode(), ManagerMode::InSession);
    let session = granted.into_tokio().try_recv().unwrap();

    // a job on the main queue waits; the session's job is served first
    assert!(cell.send_run(add(100)).is_ok());
    assert!(session.send_run(add(1)).is_ok());
    let event = manager.next_event();
    assert!(matches!(event, ManagerEvent::Session(Some(_), _)));
    assert!(matches!(manager.handle(event, &mut resource), Ok(Next::Listen)));
    assert_eq!(resource, 1);
    assert_eq!(manager.mode(), ManagerMode::InSession);

    drop(session);
    let event = manager.next_event();
    assert!(matches!(event, ManagerEvent::Session(None, _)));
    assert!(matches!(manager.handle(event, &mut resource), Ok(Next::Listen)));
    assert_eq!(resource, 1);
    assert_eq!(manager.mode(), ManagerMode::Serving);

    let event = manager.next_event();
    assert!(matches!(event, ManagerEvent::Main(Some(ThreadCellMessage::Run(_)), _)));
    assert!(matches!(manager.handle(event, &mut resource), Ok(Next::Listen)));
    assert_eq!(resource, 101);
}

#[test]
fn a_session_requester_that_left_is_an_error() {
    let (cell, mut manager) = ThreadCell::<Job>::create();
    let mut resource = 3u64;
    let (_queued, granted) = cell.request_session().ok().unwrap();
    drop(granted);
    let request = manager.next_event();
    assert!(matches!(
        manager.handle(request, &mut resource),
        Err(ManagerError::SessionRequesterGone(_))
    ));
    assert_eq!(manager.mode(), ManagerMode::Serving);
    assert_eq!(resource, 3);
}

#[test]
fn requests_to_a_stopped_cell_are_undelivered() {
    let (cell, manager) = ThreadCell::<Job>::create();
    drop(manager);
    match cell.send_run(add(1)) {
        Err(refused) => assert!(matches!(refused.into_inner(), ThreadCellMessage::Run(_))),
        Ok(_) => panic!("nobody serves the queue"),
    }
    let exchange = cell.run_blocking(1u64, |n: u64, _tx: QueueSender<u64>| add(n));
    assert_eq!(exchange.answer, Err(RequestError::Undelivered));
    assert!(exchange.request.is_err() && exchange.reply.is_none());
    assert!(matches!(cell.session_blocking().answer, Err(RequestError::Undelivered)));
    match cell.request_session() {
        Err(refused) => assert!(matches!(
            refused.into_inner(),
            ThreadCellMessage::GetSessionAsync(_)
        )),
        Ok(_) => panic!("nobody serves the queue"),
    }
}

#[test]
fn a_released_session_rejects_jobs() {
    let (cell, mut manager) = ThreadCell::<Job>::create();
    let mut resource = 0u64;
    let (_queued, granted) = cell.request_session().ok().unwrap();
    let request = manager.next_event();
    assert!(matches!(manager.handle(request, &mut resource), Ok(Next::Granted(_))));
    let session = granted.into_tokio().try_recv().unwrap();
    drop(manager);
    drop(cell);
    match session.send_run(add(1)) {
        Err(refused) => {
            let mut resource = 1u64;
            (refused.into_inner())(&mut resource);
            assert_eq!(resource, 2);
        }
        Ok(_) => panic!("nobody serves the session"),
    }
    let exchange = session.run_blocking(1u64, |n: u64, _tx: QueueSender<u64>| add(n));
    assert_eq!(exchange.answer, Err(RequestError::Undelivered));
}

#[test]
fn request_outcomes() {
    assert_eq!(request_outcome(true, Some(5u8)), Ok(5));
    assert_eq!(request_outcome::<u8>(true, None), Err(RequestError::Unanswered));
    assert_eq!(request_outcome(false, Some(5u8)), Err(RequestError::Undelivered));
    assert_eq!(request_outcome::<u8>(false, None), Err(RequestError::Undelivered));
}

fn assert_send<T: Send>() {}
fn assert_sync<T: Sync>() {}

#[test]
fn handles_are_send_and_sync_whatever_the_resource() {
    struct NonSendSync {
        _shared: std::rc::Rc<std::cell::RefCell<u8>>,
    }
    type NonSendJob = Box<dyn FnOnce(&mut NonSendSync) + Send>;
    assert_send::<ThreadCell<NonSendJob>>();
    assert_sync::<ThreadCell<NonSendJob>>();
    assert_send::<thread_cell::cell::ThreadCellSession<NonSendJob>>();
    assert_send::<Manager<NonSendJob>>();
}
