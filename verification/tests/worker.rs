use virtio_fs::epoll_loop::EpollCall;
use virtio_fs::epoll_loop::EpollReply;
use virtio_fs::epoll_loop::FsEpollHandler;
use virtio_fs::epoll_loop::Source;
use virtio_fs::epoll_loop::WaitErrorKind;
use virtio_fs::error::FsError;

fn io_error(code: i32) -> std::io::Error {
    std::io::Error::from_raw_os_error(code)
}

fn step(handler: &mut FsEpollHandler, call: EpollCall, reply: EpollReply) {
    assert_eq!(handler.call(), Some(call));
    assert!(handler.reply(reply).is_ok());
}

fn register(source: Source, data: u64) -> EpollCall {
    EpollCall::Register { source, events: epoll::Events::EPOLLIN.bits(), data }
}

const WAIT: EpollCall = EpollCall::Wait { timeout: -1, max_events: 100 };

fn waiting(slave: bool) -> FsEpollHandler {
    let mut handler = FsEpollHandler::new(2, slave);
    step(&mut handler, EpollCall::Create { cloexec: true }, EpollReply::Created(Ok(())));
    step(&mut handler, register(Source::Queue(0), 0), EpollReply::Registered(Ok(())));
    step(&mut handler, register(Source::Queue(1), 1), EpollReply::Registered(Ok(())));
    step(&mut handler, register(Source::Kill, 2), EpollReply::Registered(Ok(())));
    if slave {
        step(&mut handler, register(Source::Slave, 3), EpollReply::Registered(Ok(())));
    }
    assert_eq!(handler.call(), Some(WAIT));
    handler
}

fn ready(data: &[u64], num_events: usize) -> EpollReply {
    EpollReply::Ready { data: data.to_vec(), num_events }
}

#[test]
fn every_source_is_registered_before_the_first_wait() {
    waiting(false);
    waiting(true);
}

#[test]
fn a_worker_without_queues() {
    let mut handler = FsEpollHandler::new(0, false);
    step(&mut handler, EpollCall::Create { cloexec: true }, EpollReply::Created(Ok(())));
    step(&mut handler, register(Source::Kill, 0), EpollReply::Registered(Ok(())));
    step(&mut handler, WAIT, ready(&[0], 1));
    assert_eq!(handler.call(), None);
}

#[test]
fn queue_events_are_read_and_signalled_in_order() {
    let mut handler = waiting(true);
    step(&mut handler, WAIT, ready(&[1, 77, 0, 3], 4));
    step(&mut handler, EpollCall::ReadQueue(1), EpollReply::QueueRead(true));
    step(&mut handler, EpollCall::SignalQueue(1), EpollReply::QueueSignaled(true));
    step(&mut handler, EpollCall::ReadQueue(0), EpollReply::QueueRead(true));
    step(&mut handler, EpollCall::SignalQueue(0), EpollReply::QueueSignaled(true));
    step(&mut handler, EpollCall::HandleSlaveRequest, EpollReply::SlaveHandled(Ok(0)));
    assert_eq!(handler.call(), Some(WAIT));
}

#[test]
fn only_the_reported_events_count() {
    let mut handler = waiting(false);
    step(&mut handler, WAIT, ready(&[0, 2, 2], 1));
    step(&mut handler, EpollCall::ReadQueue(0), EpollReply::QueueRead(true));
    step(&mut handler, EpollCall::SignalQueue(0), EpollReply::QueueSignaled(true));
    step(&mut handler, WAIT, ready(&[0, 2, 2], 0));
    step(&mut handler, WAIT, ready(&[0], 5));
    assert_eq!(handler.call(), Some(EpollCall::ReadQueue(0)));
}

#[test]
fn unknown_events_are_passed_over() {
    let mut handler = waiting(false);
    // Without a request channel its position is unknown too.
    step(&mut handler, WAIT, ready(&[3, 4, 1000], 3));
    assert_eq!(handler.call(), Some(WAIT));
}

#[test]
fn the_kill_event_stops_the_worker() {
    let mut handler = waiting(true);
    step(&mut handler, WAIT, ready(&[0, 2, 1], 3));
    step(&mut handler, EpollCall::ReadQueue(0), EpollReply::QueueRead(true));
    step(&mut handler, EpollCall::SignalQueue(0), EpollReply::QueueSignaled(true));
    assert_eq!(handler.call(), None);
    assert!(handler.reply(ready(&[0], 1)).is_ok());
    assert_eq!(handler.call(), None);
}

#[test]
fn an_unreadable_queue_event_stops_the_worker() {
    let mut handler = waiting(false);
    step(&mut handler, WAIT, ready(&[0, 1], 2));
    step(&mut handler, EpollCall::ReadQueue(0), EpollReply::QueueRead(false));
    assert_eq!(handler.call(), None);
}

#[test]
fn a_failed_signal_stops_the_worker() {
    let mut handler = waiting(false);
    step(&mut handler, WAIT, ready(&[0, 1], 2));
    step(&mut handler, EpollCall::ReadQueue(0), EpollReply::QueueRead(true));
    step(&mut handler, EpollCall::SignalQueue(0), EpollReply::QueueSignaled(false));
    assert_eq!(handler.call(), None);
}

#[test]
fn a_failed_creation() {
    let mut handler = FsEpollHandler::new(2, false);
    assert!(matches!(
        handler.reply(EpollReply::Created(Err(io_error(libc::EMFILE)))),
        Err(FsError::EpollCreateFd(_))
    ));
    assert_eq!(handler.call(), None);
}

#[test]
fn a_failed_registration() {
    let mut handler = FsEpollHandler::new(2, false);
    step(&mut handler, EpollCall::Create { cloexec: true }, EpollReply::Created(Ok(())));
    assert!(matches!(
        handler.reply(EpollReply::Registered(Err(io_error(libc::ENOSPC)))),
        Err(FsError::EpollCtl(_))
    ));
    assert_eq!(handler.call(), None);
}

#[test]
fn an_interrupted_wait_is_repeated() {
    let mut handler = waiting(false);
    assert!(handler.wait_failed(io_error(libc::EINTR)).is_ok());
    assert_eq!(handler.call(), Some(WAIT));
    let reply = EpollReply::WaitFailed {
        kind: WaitErrorKind::Interrupted,
        error: io_error(libc::EINTR),
    };
    assert!(handler.reply(reply).is_ok());
    assert_eq!(handler.call(), Some(WAIT));
}

#[test]
fn a_failed_wait() {
    let mut handler = waiting(false);
    match handler.wait_failed(io_error(libc::EBADF)) {
        Err(FsError::EpollWait(e)) => assert_eq!(e.raw_os_error(), Some(libc::EBADF)),
        _ => panic!("the wait failed"),
    }
    assert_eq!(handler.call(), None);
    let mut handler = waiting(false);
    let reply = EpollReply::WaitFailed {
        kind: WaitErrorKind::Other,
        error: io_error(libc::EBADF),
    };
    assert!(matches!(handler.reply(reply), Err(FsError::EpollWait(_))));
}

#[test]
fn a_failed_request_of_the_daemon() {
    let mut handler = waiting(true);
    step(&mut handler, WAIT, ready(&[3, 0], 2));
    assert_eq!(handler.call(), Some(EpollCall::HandleSlaveRequest));
    let error = vhost::vhost_user::Error::InvalidMessage;
    assert!(matches!(
        handler.reply(EpollReply::SlaveHandled(Err(error))),
        Err(FsError::VhostUserSlaveRequest(vhost::vhost_user::Error::InvalidMessage))
    ));
    assert_eq!(handler.call(), None);
}

#[test]
fn the_source_of_an_event() {
    let handler = FsEpollHandler::new(2, true);
    assert_eq!(handler.source_of(1), Some(Source::Queue(1)));
    assert_eq!(handler.source_of(2), Some(Source::Kill));
    assert_eq!(handler.source_of(3), Some(Source::Slave));
    assert_eq!(handler.source_of(4), None);
    assert_eq!(FsEpollHandler::new(2, false).source_of(3), None);
}
