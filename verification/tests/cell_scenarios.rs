// The cell's requests served by its manager, both driven on the test's own thread.
use std::rc::Rc;

use thread_cell::cell::{reply_channel, reply_oneshot, RequestError, ThreadCell};
use thread_cell::channel::{OneshotSender, QueueReceiver, QueueSender};
use thread_cell::manager::{Manager, ManagerMode, Next};
use thread_cell::resource::{run_and_reply, run_and_reply_async};

type Job<T> = Box<dyn FnOnce(&mut T) + Send>;

#[derive(Default)]
struct TestResource {
    counter: usize,
}

impl TestResource {
    fn increment(&mut self) -> usize {
        self.counter += 1;
        self.counter
    }
}

/// Lets the manager act on the next `n` events, none of which stops it.
fn step<T>(manager: &mut Manager<Job<T>>, resource: &mut T, n: usize) {
    for _ in 0..n {
        let event = manager.next_event();
        let next = manager.handle(event, resource);
        assert!(matches!(next, Ok(Next::Listen) | Ok(Next::Granted(_))));
    }
}

/// Queues `f` on the cell; its answer comes on the returned receiver.
fn queue<T: 'static, R: Send + 'static>(
    cell: &ThreadCell<Job<T>>,
    f: impl FnOnce(&mut T) -> R + Send + 'static,
) -> QueueReceiver<R> {
    let (tx, rx) = reply_channel();
    let job: Job<T> = Box::new(move |res| {
        run_and_reply(f, tx, res).ok().unwrap();
    });
    assert!(cell.send_run(job).is_ok());
    rx
}

fn runtime() -> tokio::runtime::Runtime {
    tokio::runtime::Builder::new_current_thread()
        .enable_all()
        .build()
        .unwrap()
}

#[test]
fn requests_are_answered_in_order() {
    let (cell, mut manager) = ThreadCell::create();
    let mut resource = TestResource::default();
    let first = queue(&cell, |res: &mut TestResource| {
        res.increment();
        res.increment()
    });
    let second = queue(&cell, |res: &mut TestResource| res.increment());
    step(&mut manager, &mut resource, 2);
    assert_eq!(first.receive().0, Some(2));
    assert_eq!(second.receive().0, Some(3));
}

#[test]
fn ten_requests_are_served_one_after_another() {
    let (cell, mut manager) = ThreadCell::create();
    let mut resource = TestResource::default();
    let mut answers = Vec::new();
    for _ in 0..10 {
        let other = cell.clone();
        answers.push(queue(&other, |res: &mut TestResource| res.increment()));
    }
    step(&mut manager, &mut resource, 10);
    let sum: usize = answers.iter().map(|rx| rx.receive().0.unwrap()).sum();
    // The sum of 1..=10 = 55
    assert_eq!(sum, 55);
}

#[test]
fn an_async_request_is_answered() {
    let (cell, mut manager) = ThreadCell::create();
    let mut resource = TestResource::default();
    let (tx, rx) = reply_oneshot();
    let job: Job<TestResource> = Box::new(move |res| {
        run_and_reply_async(|r: &mut TestResource| r.increment(), tx, res)
            .ok()
            .unwrap();
    });
    assert!(cell.send_run(job).is_ok());
    step(&mut manager, &mut resource, 1);
    assert_eq!(runtime().block_on(rx.into_tokio()).unwrap(), 1);
}

#[test]
fn an_async_session_gives_mutable_access() {
    let (cell, mut manager) = ThreadCell::create();
    let mut resource = TestResource::default();
    let (_queued, granted) = cell.request_session().ok().unwrap();
    step(&mut manager, &mut resource, 1);
    assert_eq!(manager.mode(), ManagerMode::InSession);
    let lock = runtime().block_on(granted.into_tokio()).unwrap();
    let (tx, rx) = reply_channel();
    let job: Job<TestResource> = Box::new(move |res| {
        run_and_reply(
            |r: &mut TestResource| {
                r.increment();
                r.increment()
            },
            tx,
            res,
        )
        .ok()
        .unwrap();
    });
    assert!(lock.send_run(job).is_ok());
    step(&mut manager, &mut resource, 1);
    assert_eq!(rx.receive().0, Some(2));
    drop(lock);
    step(&mut manager, &mut resource, 1);
    assert_eq!(manager.mode(), ManagerMode::Serving);
}

#[test]
fn a_cell_can_hold_a_non_send_resource() {
    #[derive(Default)]
    struct NotSend(Rc<()>); // Rc is !Send
    let (cell, mut manager) = ThreadCell::<Job<NotSend>>::create();
    let mut resource = NotSend(Rc::new(()));
    let count = queue(&cell, |res: &mut NotSend| Rc::strong_count(&res.0));
    step(&mut manager, &mut resource, 1);
    assert_eq!(count.receive().0, Some(1));
}

#[test]
fn dropping_every_handle_stops_the_manager() {
    let (cell, mut manager) = ThreadCell::<Job<TestResource>>::create();
    let other = cell.clone();
    drop(cell);
    let mut resource = TestResource::default();
    let still_there = queue(&other, |res: &mut TestResource| res.increment());
    drop(other);
    step(&mut manager, &mut resource, 1);
    assert_eq!(still_there.receive().0, Some(1));
    let event = manager.next_event();
    assert!(matches!(manager.handle(event, &mut resource), Ok(Next::Stop)));
    assert_eq!(manager.mode(), ManagerMode::Stopped);
    assert_eq!(resource.counter, 1);
}

#[test]
fn run_blocking_returns_the_answer_on_its_reply_channel() {
    let (cell, _manager) = ThreadCell::<Job<TestResource>>::create();
    // the job answers at once, while it is being made
    let pack = |f: fn(&mut u8) -> usize, tx: QueueSender<usize>| -> Job<TestResource> {
        assert!(run_and_reply(f, tx, &mut 0u8).is_ok());
        Box::new(|_res| {})
    };
    let exchange = cell.run_blocking(|_: &mut u8| 9usize, pack);
    assert_eq!(exchange.answer, Ok(9));
    assert!(exchange.request.is_ok());
    assert!(exchange.reply.is_some());
}

#[test]
fn run_blocking_without_an_answer_is_unanswered() {
    let (cell, _manager) = ThreadCell::<Job<TestResource>>::create();
    let pack = |_f: (), tx: QueueSender<usize>| -> Job<TestResource> {
        drop(tx);
        Box::new(|_res| {})
    };
    assert_eq!(cell.run_blocking((), pack).answer, Err(RequestError::Unanswered));
}

#[test]
fn run_blocking_on_a_session_waits_on_the_reply_the_job_makes() {
    let (cell, mut manager) = ThreadCell::<Job<TestResource>>::create();
    let mut resource = TestResource::default();
    let (_queued, granted) = cell.request_session().ok().unwrap();
    step(&mut manager, &mut resource, 1);
    let lock = runtime().block_on(granted.into_tokio()).unwrap();
    let pack = |f: fn(&mut u8) -> usize, tx: QueueSender<usize>| -> Job<TestResource> {
        assert!(run_and_reply(f, tx, &mut 4u8).is_ok());
        Box::new(|_res| {})
    };
    assert_eq!(lock.run_blocking(|r: &mut u8| *r as usize * 2, pack).answer, Ok(8));
}

#[test]
fn request_run_answers_on_the_returned_receiver() {
    let (cell, mut manager) = ThreadCell::create();
    let mut resource = TestResource::default();
    let pack = |f: fn(&mut TestResource) -> usize, tx: OneshotSender<usize>| -> Job<TestResource> {
        Box::new(move |res| {
            run_and_reply_async(f, tx, res).ok().unwrap();
        })
    };
    let (_queued, rx) = cell.request_run(TestResource::increment as fn(&mut TestResource) -> usize, pack).ok().unwrap();
    step(&mut manager, &mut resource, 1);
    assert_eq!(runtime().block_on(rx.into_tokio()).unwrap(), 1);
}

#[test]
fn request_run_on_a_stopped_cell_is_refused() {
    let (cell, manager) = ThreadCell::<Job<TestResource>>::create();
    drop(manager);
    let pack = |f: fn(&mut TestResource) -> usize, tx: OneshotSender<usize>| -> Job<TestResource> {
        Box::new(move |res| {
            run_and_reply_async(f, tx, res).ok().unwrap();
        })
    };
    assert!(cell.request_run(TestResource::increment as fn(&mut TestResource) -> usize, pack).is_err());
}
