//! The worker of an active device.
//!
//! The worker waits on one epoll set. It registers the call event of every
//! queue, the kill event and, where the daemon may send requests, the request
//! channel. Each is registered with its position in this order as the event
//! data, so that the data of a reported event tells which source is ready.
use crate::error::FsError;
use crate::host;
use crate::host::EPOLLIN;
use vstd::prelude::*;

verus! {

/// The number of events that one wait can report.
pub const EPOLL_EVENTS_LEN: usize = 100;

/// What an epoll event can come from.
#[derive(Clone, Copy, Debug, PartialEq, Eq, Structural)]
pub enum Source {
    /// The call event of the queue with this index.
    Queue(usize),
    /// The kill event.
    Kill,
    /// The channel on which the daemon sends requests.
    Slave,
}

/// A call that the worker has to make next.
#[derive(Clone, Copy, Debug, PartialEq, Eq, Structural)]
pub enum EpollCall {
    /// Create the epoll set, closed on exec if `cloexec`.
    Create { cloexec: bool },
    /// Add the file descriptor of `source` to the epoll set, for `events`, with
    /// `data` as the event data.
    Register { source: Source, events: u32, data: u64 },
    /// Wait for up to `max_events` events; a timeout of -1 waits for ever.
    Wait { timeout: i32, max_events: usize },
    /// Read the call event of a queue.
    ReadQueue(usize),
    /// Signal to the guest that a queue has been used.
    SignalQueue(usize),
    /// Handle one request of the daemon.
    HandleSlaveRequest,
}

/// Why a wait failed, as far as the worker tells failures apart.
#[derive(Clone, Copy, Debug, PartialEq, Eq, Structural)]
pub enum WaitErrorKind {
    /// The wait was interrupted before anything happened.
    Interrupted,
    /// Any other reason.
    Other,
}

/// The result of a call that the worker made.
#[derive(Debug)]
pub enum EpollReply {
    /// The epoll set was created, or not.
    Created(Result<(), std::io::Error>),
    /// A file descriptor was added, or not.
    Registered(Result<(), std::io::Error>),
    /// A wait reported `num_events` events, whose data lead the event buffer.
    Ready { data: Vec<u64>, num_events: usize },
    /// A wait failed.
    WaitFailed { kind: WaitErrorKind, error: std::io::Error },
    /// A call event was read (`true`), or could not be read.
    QueueRead(bool),
    /// A used queue was signalled (`true`), or could not be signalled.
    QueueSignaled(bool),
    /// A request of the daemon was handled, or not.
    SlaveHandled(Result<u64, vhost::vhost_user::Error>),
}

/// Where the worker stands: the call whose result it waits for.
#[derive(Clone, Copy, Debug, PartialEq, Eq, Structural)]
pub enum LoopStage {
    /// Creation of the epoll set.
    Create,
    /// Registration of the source at this position.
    Register(usize),
    /// A wait.
    Wait,
    /// Reading the call event of a queue.
    Read(usize),
    /// Signalling a queue.
    Signal(usize),
    /// Handling a request of the daemon.
    Slave,
    /// The worker has returned.
    Stopped,
}

/// The worker as contracts see it.
#[verifier::ext_equal]
pub struct LoopView {
    /// The number of queues.
    pub num_queues: usize,
    /// Whether the daemon may send requests.
    pub slave: bool,
    /// The call whose result is awaited.
    pub stage: LoopStage,
    /// The data of the reported events that are still to be handled, in order.
    pub pending: Seq<u64>,
}

/// The number of sources of a worker.
pub open spec fn source_count(num_queues: usize, slave: bool) -> int {
    num_queues + (if slave { 2int } else { 1int })
}

/// The source at a position: the queues in order, the kill event, the request
/// channel.
pub open spec fn source_at(num_queues: usize, slave: bool, position: int) -> Option<Source> {
    if 0 <= position < num_queues {
        Some(Source::Queue(position as usize))
    } else if position == num_queues {
        Some(Source::Kill)
    } else if slave && position == num_queues + 1 {
        Some(Source::Slave)
    } else {
        None
    }
}

/// The data of the events that a wait has reported: the first `num_events` in
/// the event buffer.
pub open spec fn reported(buffer: Seq<u64>, num_events: usize) -> Seq<u64> {
    buffer.take(
        if num_events <= buffer.len() {
            num_events as int
        } else {
            buffer.len() as int
        },
    )
}

/// What the worker does with the events at the head of `pending`: events of no
/// known source are passed over, the first other event decides.
pub open spec fn dispatch(num_queues: usize, slave: bool, pending: Seq<u64>) -> (
    LoopStage,
    Seq<u64>,
)
    decreases pending.len(),
{
    if pending.len() == 0 {
        (LoopStage::Wait, pending)
    } else {
        match source_at(num_queues, slave, (pending[0] as usize) as int) {
            Some(Source::Queue(q)) => (LoopStage::Read(q), pending.drop_first()),
            Some(Source::Kill) => (LoopStage::Stopped, pending.drop_first()),
            Some(Source::Slave) => (LoopStage::Slave, pending.drop_first()),
            None => dispatch(num_queues, slave, pending.drop_first()),
        }
    }
}

impl LoopView {
    /// The worker before its first call.
    pub open spec fn initial(num_queues: usize, slave: bool) -> LoopView {
        LoopView { num_queues, slave, stage: LoopStage::Create, pending: Seq::empty() }
    }

    /// Positions and queue indices are in range.
    pub open spec fn wf(self) -> bool {
        &&& source_count(self.num_queues, self.slave) - 1 <= usize::MAX
        &&& match self.stage {
            LoopStage::Register(p) => p < source_count(self.num_queues, self.slave),
            LoopStage::Read(q) => q < self.num_queues,
            LoopStage::Signal(q) => q < self.num_queues,
            LoopStage::Slave => self.slave,
            _ => true,
        }
    }

    /// The call whose result the worker waits for.
    pub open spec fn call(self) -> Option<EpollCall> {
        match self.stage {
            LoopStage::Create => Some(EpollCall::Create { cloexec: true }),
            LoopStage::Register(p) => match source_at(self.num_queues, self.slave, p as int) {
                Some(source) => Some(
                    EpollCall::Register { source, events: EPOLLIN, data: p as u64 },
                ),
                None => None,
            },
            LoopStage::Wait => Some(
                EpollCall::Wait { timeout: -1i32, max_events: EPOLL_EVENTS_LEN },
            ),
            LoopStage::Read(q) => Some(EpollCall::ReadQueue(q)),
            LoopStage::Signal(q) => Some(EpollCall::SignalQueue(q)),
            LoopStage::Slave => Some(EpollCall::HandleSlaveRequest),
            LoopStage::Stopped => None,
        }
    }

    /// The worker at another stage.
    pub open spec fn at(self, stage: LoopStage) -> LoopView {
        LoopView { stage, ..self }
    }

    /// The worker once it has turned to the events in `pending`.
    pub open spec fn handling(self, pending: Seq<u64>) -> LoopView {
        let (stage, rest) = dispatch(self.num_queues, self.slave, pending);
        LoopView { stage, pending: rest, ..self }
    }

    /// The worker and the result of `run` once a reply has come in: a worker
    /// that has stopped has returned, with the error if there is one. A reply
    /// that does not answer the awaited call changes nothing.
    pub open spec fn next(self, reply: EpollReply) -> (LoopView, Result<(), FsError>) {
        match (self.stage, reply) {
            (LoopStage::Create, EpollReply::Created(Ok(_))) => (
                self.at(LoopStage::Register(0)),
                Ok(()),
            ),
            (LoopStage::Create, EpollReply::Created(Err(e))) => (
                self.at(LoopStage::Stopped),
                Err(FsError::EpollCreateFd(e)),
            ),
            (LoopStage::Register(p), EpollReply::Registered(Ok(_))) => (
                self.at(
                    if p + 1 < source_count(self.num_queues, self.slave) {
                        LoopStage::Register((p + 1) as usize)
                    } else {
                        LoopStage::Wait
                    },
                ),
                Ok(()),
            ),
            (LoopStage::Register(_), EpollReply::Registered(Err(e))) => (
                self.at(LoopStage::Stopped),
                Err(FsError::EpollCtl(e)),
            ),
            (LoopStage::Wait, EpollReply::Ready { data, num_events }) => (
                self.handling(reported(data@, num_events)),
                Ok(()),
            ),
            (LoopStage::Wait, EpollReply::WaitFailed { kind, error }) => match kind {
                WaitErrorKind::Interrupted => (self, Ok(())),
                WaitErrorKind::Other => (
                    self.at(LoopStage::Stopped),
                    Err(FsError::EpollWait(error)),
                ),
            },
            (LoopStage::Read(q), EpollReply::QueueRead(ok)) => (
                self.at(
                    if ok {
                        LoopStage::Signal(q)
                    } else {
                        LoopStage::Stopped
                    },
                ),
                Ok(()),
            ),
            (LoopStage::Signal(_), EpollReply::QueueSignaled(ok)) => (
                if ok {
                    self.handling(self.pending)
                } else {
                    self.at(LoopStage::Stopped)
                },
                Ok(()),
            ),
            (LoopStage::Slave, EpollReply::SlaveHandled(Ok(_))) => (
                self.handling(self.pending),
                Ok(()),
            ),
            (LoopStage::Slave, EpollReply::SlaveHandled(Err(e))) => (
                self.at(LoopStage::Stopped),
                Err(FsError::VhostUserSlaveRequest(e)),
            ),
            _ => (self, Ok(())),
        }
    }
}

/// The worker of an active device.
#[derive(Debug)]
pub struct FsEpollHandler {
    num_queues: usize,
    slave: bool,
    stage: LoopStage,
    /// The data of the events of the last wait.
    events: Vec<u64>,
    /// How many of `events` have been handled.
    handled: usize,
}

impl View for FsEpollHandler {
    type V = LoopView;

    closed spec fn view(&self) -> LoopView {
        LoopView {
            num_queues: self.num_queues,
            slave: self.slave,
            stage: self.stage,
            pending: self.events@.skip(self.handled as int),
        }
    }
}

impl FsEpollHandler {
    /// The worker is in a state that its operations can leave it in.
    pub closed spec fn inv(self) -> bool {
        self.handled <= self.events@.len() && self@.wf()
    }

    /// A worker for `num_queues` queues, which takes requests of the daemon if
    /// `slave`.
    pub fn new(num_queues: usize, slave: bool) -> (handler: FsEpollHandler)
        requires
            source_count(num_queues, slave) - 1 <= usize::MAX,
        ensures
            handler.inv(),
            handler@.wf(),
            handler@ == LoopView::initial(num_queues, slave),
    {
        let handler = FsEpollHandler {
            num_queues,
            slave,
            stage: LoopStage::Create,
            events: Vec::new(),
            handled: 0,
        };
        assert(handler@.pending =~= Seq::empty());
        handler
    }

    /// The source at `position`, if there is one.
    fn source(&self, position: usize) -> (source: Option<Source>)
        requires
            self.inv(),
        ensures
            source == source_at(self@.num_queues, self@.slave, position as int),
    {
        if position < self.num_queues {
            Some(Source::Queue(position))
        } else if position == self.num_queues {
            Some(Source::Kill)
        } else if self.slave && position == self.num_queues + 1 {
            Some(Source::Slave)
        } else {
            None
        }
    }

    /// The source of an event with this data, if it is a source of the worker.
    pub fn source_of(&self, data: u64) -> (source: Option<Source>)
        requires
            self.inv(),
        ensures
            source == source_at(self@.num_queues, self@.slave, (data as usize) as int),
    {
        let ev_type: usize = #[verifier::truncate] (data as usize);
        self.source(ev_type)
    }

    /// The call that the worker has to make next; none once it has returned.
    pub fn call(&self) -> (call: Option<EpollCall>)
        requires
            self.inv(),
        ensures
            call == self@.call(),
    {
        match self.stage {
            LoopStage::Create => Some(EpollCall::Create { cloexec: true }),
            LoopStage::Register(p) => match self.source(p) {
                Some(source) => Some(
                    EpollCall::Register { source, events: host::epollin(), data: p as u64 },
                ),
                None => None,
            },
            LoopStage::Wait => Some(EpollCall::Wait { timeout: -1, max_events: EPOLL_EVENTS_LEN }),
            LoopStage::Read(q) => Some(EpollCall::ReadQueue(q)),
            LoopStage::Signal(q) => Some(EpollCall::SignalQueue(q)),
            LoopStage::Slave => Some(EpollCall::HandleSlaveRequest),
            LoopStage::Stopped => None,
        }
    }

    /// Turns to the next event of a known source, or back to waiting.
    fn next_event(&mut self)
        requires
            old(self).inv(),
        ensures
            final(self).inv(),
            final(self)@ == old(self)@.handling(old(self)@.pending),
    {
        let ghost start = self@;
        while self.handled < self.events.len()
            invariant
                start == old(self)@,
                self.inv(),
                self@.num_queues == start.num_queues,
                self@.slave == start.slave,
                self@.stage == start.stage,
                dispatch(start.num_queues, start.slave, start.pending) == dispatch(
                    start.num_queues,
                    start.slave,
                    self@.pending,
                ),
            decreases self.events@.len() - self.handled,
        {
            let ghost before = self@.pending;
            let data: u64 = self.events[self.handled];
            self.handled = self.handled + 1;
            assert(before[0] == data);
            assert(self@.pending =~= before.drop_first());
            match self.source_of(data) {
                Some(Source::Queue(q)) => {
                    self.stage = LoopStage::Read(q);
                    return;
                },
                Some(Source::Kill) => {
                    self.stage = LoopStage::Stopped;
                    return;
                },
                Some(Source::Slave) => {
                    self.stage = LoopStage::Slave;
                    return;
                },
                None => {},
            }
        }
        self.stage = LoopStage::Wait;
    }

    /// Takes the result of the awaited call. The result of `run` is that of the
    /// reply after which the worker has stopped.
    pub fn reply(&mut self, reply: EpollReply) -> (result: Result<(), FsError>)
        requires
            old(self).inv(),
        ensures
            final(self).inv(),
            final(self)@.wf(),
            (final(self)@, result) == old(self)@.next(reply),
    {
        match (self.stage, reply) {
            (LoopStage::Create, EpollReply::Created(Ok(_))) => {
                self.stage = LoopStage::Register(0);
                Ok(())
            },
            (LoopStage::Create, EpollReply::Created(Err(e))) => {
                self.stage = LoopStage::Stopped;
                Err(FsError::EpollCreateFd(e))
            },
            (LoopStage::Register(p), EpollReply::Registered(Ok(_))) => {
                let last: usize = if self.slave {
                    self.num_queues + 1
                } else {
                    self.num_queues
                };
                self.stage = if p < last {
                    LoopStage::Register(p + 1)
                } else {
                    LoopStage::Wait
                };
                Ok(())
            },
            (LoopStage::Register(_), EpollReply::Registered(Err(e))) => {
                self.stage = LoopStage::Stopped;
                Err(FsError::EpollCtl(e))
            },
            (LoopStage::Wait, EpollReply::Ready { data, num_events }) => {
                let mut events: Vec<u64> = data;
                events.truncate(num_events);
                self.events = events;
                self.handled = 0;
                assert(self@.pending =~= reported(data@, num_events));
                self.next_event();
                Ok(())
            },
            (LoopStage::Wait, EpollReply::WaitFailed { kind, error }) => match kind {
                WaitErrorKind::Interrupted => Ok(()),
                WaitErrorKind::Other => {
                    self.stage = LoopStage::Stopped;
                    Err(FsError::EpollWait(error))
                },
            },
            (LoopStage::Read(q), EpollReply::QueueRead(ok)) => {
                self.stage = if ok {
                    LoopStage::Signal(q)
                } else {
                    LoopStage::Stopped
                };
                Ok(())
            },
            (LoopStage::Signal(_), EpollReply::QueueSignaled(ok)) => {
                if ok {
                    self.next_event();
                } else {
                    self.stage = LoopStage::Stopped;
                }
                Ok(())
            },
            (LoopStage::Slave, EpollReply::SlaveHandled(Ok(_))) => {
                self.next_event();
                Ok(())
            },
            (LoopStage::Slave, EpollReply::SlaveHandled(Err(e))) => {
                self.stage = LoopStage::Stopped;
                Err(FsError::VhostUserSlaveRequest(e))
            },
            _ => Ok(()),
        }
    }

    /// Takes the error of a failed wait: an interrupted wait is repeated, any
    /// other error ends the worker.
    pub fn wait_failed(&mut self, error: std::io::Error) -> (result: Result<(), FsError>)
        requires
            old(self).inv(),
        ensures
            final(self).inv(),
            final(self)@.wf(),
            (final(self)@, result) == old(self)@.next(
                EpollReply::WaitFailed { kind: kind_of_error(error), error },
            ),
    {
        let kind = wait_error_kind(&error);
        self.reply(EpollReply::WaitFailed { kind, error })
    }
}

/// The kind that `std::io::Error::kind` gives for an error, as far as the worker
/// tells kinds apart.
pub uninterp spec fn kind_of_error(error: std::io::Error) -> WaitErrorKind;

/// Calls `std::io::Error::kind` and tells `Interrupted` from all other kinds.
/// The contract claims that the kind depends on the error alone.
#[verifier::external_body]
fn wait_error_kind(error: &std::io::Error) -> (kind: WaitErrorKind)
    ensures
        kind == kind_of_error(*error),
{
    match error.kind() {
        std::io::ErrorKind::Interrupted => WaitErrorKind::Interrupted,
        _ => WaitErrorKind::Other,
    }
}

/// The worker after a series of replies.
pub open spec fn after_replies(worker: LoopView, replies: Seq<EpollReply>) -> LoopView
    decreases replies.len(),
{
    if replies.len() == 0 {
        worker
    } else {
        after_replies(worker, replies.drop_last()).next(replies.last()).0
    }
}

/// Whether an event with this data comes from a source of the worker.
pub open spec fn is_known(num_queues: usize, slave: bool, data: u64) -> bool {
    source_at(num_queues, slave, (data as usize) as int) is Some
}

/// The events of known sources among `pending`, in order.
pub open spec fn known_events(num_queues: usize, slave: bool, pending: Seq<u64>) -> Seq<u64> {
    pending.filter(|data: u64| is_known(num_queues, slave, data))
}

/// The data with which a source is registered leads back to this source, and
/// to no other.
pub proof fn law_event_data_names_source(num_queues: usize, slave: bool, position: usize)
    requires
        position < source_count(num_queues, slave),
    ensures
        is_known(num_queues, slave, position as u64),
        source_at(num_queues, slave, ((position as u64) as usize) as int) == source_at(
            num_queues,
            slave,
            position as int,
        ),
        forall|other: usize|
            other < source_count(num_queues, slave) && other != position ==> #[trigger] source_at(
                num_queues,
                slave,
                other as int,
            ) != source_at(num_queues, slave, position as int),
{
}

/// Before its first wait the worker creates the epoll set and registers every
/// source, in order and once: after the creation and `count` registrations the
/// source at position `count` is next, or the wait if none is left.
pub proof fn law_registers_every_source(
    num_queues: usize,
    slave: bool,
    replies: Seq<EpollReply>,
    count: nat,
)
    requires
        source_count(num_queues, slave) - 1 <= usize::MAX,
        count <= source_count(num_queues, slave),
        replies.len() == count + 1,
        replies[0] == EpollReply::Created(Ok(())),
        forall|i: int| 0 < i <= count ==> replies[i] == EpollReply::Registered(Ok(())),
    ensures
        after_replies(LoopView::initial(num_queues, slave), replies) == LoopView::initial(
            num_queues,
            slave,
        ).at(
            if count < source_count(num_queues, slave) {
                LoopStage::Register(count as usize)
            } else {
                LoopStage::Wait
            },
        ),
    decreases count,
{
    let worker = LoopView::initial(num_queues, slave);
    if count == 0 {
        assert(replies.drop_last() =~= Seq::empty());
        assert(after_replies(worker, replies.drop_last()) == worker);
    } else {
        law_registers_every_source(num_queues, slave, replies.drop_last(), (count - 1) as nat);
    }
}

/// The worker handles the events of known sources in the order in which they
/// were reported and passes over all others; it waits again exactly when no
/// event of a known source is left.
pub proof fn law_known_events_in_order(num_queues: usize, slave: bool, pending: Seq<u64>)
    ensures
        ({
            let known = known_events(num_queues, slave, pending);
            let (stage, rest) = dispatch(num_queues, slave, pending);
            &&& known.len() == 0 <==> stage == LoopStage::Wait
            &&& known.len() == 0 ==> rest.len() == 0
            &&& known.len() > 0 ==> {
                &&& known_events(num_queues, slave, rest) == known.drop_first()
                &&& stage == match source_at(num_queues, slave, (known[0] as usize) as int) {
                    Some(Source::Queue(q)) => LoopStage::Read(q),
                    Some(Source::Kill) => LoopStage::Stopped,
                    Some(Source::Slave) => LoopStage::Slave,
                    None => LoopStage::Wait,
                }
            }
        }),
    decreases pending.len(),
{
    broadcast use vstd::seq_lib::group_filter_ensures;

    let f = |data: u64| is_known(num_queues, slave, data);
    if pending.len() > 0 {
        let head = seq![pending[0]];
        let tail = pending.drop_first();
        assert(pending =~= head + tail);
        Seq::filter_distributes_over_add(head, tail, f);
        assert(head.filter(f) =~= if f(pending[0]) {
            head
        } else {
            Seq::empty()
        }) by {
            reveal(Seq::filter);
            assert(head.drop_last() =~= Seq::<u64>::empty());
            assert(Seq::<u64>::empty().filter(f) =~= Seq::empty());
        }
        law_known_events_in_order(num_queues, slave, tail);
        if f(pending[0]) {
            assert(pending.filter(f).drop_first() =~= tail.filter(f));
        } else {
            assert(pending.filter(f) =~= tail.filter(f));
        }
    } else {
        reveal(Seq::filter);
    }
}

/// A kill event stops the worker once every known event reported before it has
/// been handled, whatever was reported after it.
pub proof fn law_kill_event_stops(worker: LoopView, pending: Seq<u64>)
    requires
        ({
            let known = known_events(worker.num_queues, worker.slave, pending);
            known.len() > 0 && (known[0] as usize) == worker.num_queues
        }),
    ensures
        worker.handling(pending).stage == LoopStage::Stopped,
        worker.handling(pending).call() is None,
{
    law_known_events_in_order(worker.num_queues, worker.slave, pending);
}

/// A worker that has stopped stays as it is.
pub proof fn law_stopped_worker_stays(worker: LoopView, reply: EpollReply)
    requires
        worker.stage == LoopStage::Stopped,
    ensures
        worker.call() is None,
        worker.next(reply) == (worker, Ok::<(), FsError>(())),
{
}

/// An interrupted wait is repeated, and nothing else happens.
pub proof fn law_interrupted_wait_is_repeated(worker: LoopView, error: std::io::Error)
    requires
        worker.stage == LoopStage::Wait,
    ensures
        worker.next(EpollReply::WaitFailed { kind: WaitErrorKind::Interrupted, error }) == (
            worker,
            Ok::<(), FsError>(()),
        ),
        worker.call() == Some(EpollCall::Wait { timeout: -1i32, max_events: EPOLL_EVENTS_LEN }),
{
}

/// A wait that failed for another reason ends the worker with its error.
pub proof fn law_failed_wait_ends_worker(worker: LoopView, error: std::io::Error)
    requires
        worker.stage == LoopStage::Wait,
    ensures
        worker.next(EpollReply::WaitFailed { kind: WaitErrorKind::Other, error }) == (
            worker.at(LoopStage::Stopped),
            Err::<(), FsError>(FsError::EpollWait(error)),
        ),
{
}

/// A reported queue event is read and then signalled to the guest, for the same
/// queue, and the worker goes on with what was reported after it.
pub proof fn law_queue_event_is_forwarded(worker: LoopView, queue: usize)
    requires
        worker.stage == LoopStage::Read(queue),
    ensures
        ({
            let (read, read_result) = worker.next(EpollReply::QueueRead(true));
            let (done, done_result) = read.next(EpollReply::QueueSignaled(true));
            &&& worker.call() == Some(EpollCall::ReadQueue(queue))
            &&& read.call() == Some(EpollCall::SignalQueue(queue))
            &&& done == worker.handling(worker.pending)
            &&& read_result == Ok::<(), FsError>(())
            &&& done_result == Ok::<(), FsError>(())
        }),
{
    let read = worker.next(EpollReply::QueueRead(true)).0;
    assert(read.handling(read.pending) == worker.handling(worker.pending));
}

/// A queue event that cannot be read or signalled stops the worker without an
/// error; one that cannot be read is not signalled.
pub proof fn law_failed_queue_event_stops(worker: LoopView, queue: usize)
    ensures
        worker.stage == LoopStage::Read(queue) ==> worker.next(EpollReply::QueueRead(false)) == (
            worker.at(LoopStage::Stopped),
            Ok::<(), FsError>(()),
        ),
        worker.stage == LoopStage::Signal(queue) ==> worker.next(EpollReply::QueueSignaled(false))
            == (worker.at(LoopStage::Stopped), Ok::<(), FsError>(())),
{
}

/// Every step keeps the worker well-formed, and a step that yields an error
/// stops it.
pub proof fn law_step_keeps_worker(worker: LoopView, reply: EpollReply)
    requires
        worker.wf(),
    ensures
        worker.next(reply).0.wf(),
        worker.next(reply).0.num_queues == worker.num_queues,
        worker.next(reply).0.slave == worker.slave,
        worker.next(reply).1 is Err ==> worker.next(reply).0.stage == LoopStage::Stopped,
{
    lemma_dispatch_in_range(worker.num_queues, worker.slave, worker.pending);
    if let EpollReply::Ready { data, num_events } = reply {
        lemma_dispatch_in_range(worker.num_queues, worker.slave, reported(data@, num_events));
    }
}

/// A running worker stops without an error for three reasons only: a queue event
/// could not be read, a queue could not be signalled, or the next event of a known
/// source is the kill event.
pub proof fn law_reasons_to_stop(worker: LoopView, reply: EpollReply)
    requires
        worker.stage != LoopStage::Stopped,
        worker.next(reply).0.stage == LoopStage::Stopped,
        worker.next(reply).1 is Ok,
    ensures
        ({
            let pending = match reply {
                EpollReply::Ready { data, num_events } => reported(data@, num_events),
                _ => worker.pending,
            };
            let known = known_events(worker.num_queues, worker.slave, pending);
            ||| reply == EpollReply::QueueRead(false)
            ||| reply == EpollReply::QueueSignaled(false)
            ||| known.len() > 0 && (known[0] as usize) == worker.num_queues
        }),
{
    law_known_events_in_order(worker.num_queues, worker.slave, worker.pending);
    if let EpollReply::Ready { data, num_events } = reply {
        law_known_events_in_order(worker.num_queues, worker.slave, reported(data@, num_events));
    }
}

/// Dispatching leads to a stage that fits the worker.
proof fn lemma_dispatch_in_range(num_queues: usize, slave: bool, pending: Seq<u64>)
    ensures
        match dispatch(num_queues, slave, pending).0 {
            LoopStage::Read(q) => q < num_queues,
            LoopStage::Slave => slave,
            LoopStage::Wait => true,
            LoopStage::Stopped => true,
            _ => false,
        },
    decreases pending.len(),
{
    if pending.len() > 0 {
        lemma_dispatch_in_range(num_queues, slave, pending.drop_first());
    }
}

/// A worker has one source per queue, the kill event after them, and the request
/// channel after that if the daemon may send requests; nothing else.
pub proof fn law_positions_of_sources(num_queues: usize, slave: bool, position: int)
    ensures
        source_count(num_queues, slave) == num_queues + 1 + (if slave {
            1int
        } else {
            0int
        }),
        0 <= position < num_queues ==> {
            &&& source_at(num_queues, slave, position) matches Some(Source::Queue(q))
            &&& q == position
        },
        position == num_queues ==> source_at(num_queues, slave, position) == Some(Source::Kill),
        position == num_queues + 1 ==> source_at(num_queues, slave, position) == (if slave {
            Some(Source::Slave)
        } else {
            None
        }),
        position < 0 || position > num_queues + 1 ==> source_at(num_queues, slave, position)
            is None,
{
}

/// The first event of a known source decides what the worker does: the events
/// before it are passed over, and exactly those after it are left.
pub proof fn law_first_known_event_decides(
    num_queues: usize,
    slave: bool,
    pending: Seq<u64>,
    first: int,
)
    requires
        0 <= first < pending.len(),
        forall|j: int|
            0 <= j < first ==> (#[trigger] pending[j] as usize) > num_queues && !(slave && (
            pending[j] as usize) == num_queues + 1),
    ensures
        ({
            let position = pending[first] as usize;
            let left = pending.subrange(first + 1, pending.len() as int);
            &&& position < num_queues ==> dispatch(num_queues, slave, pending) == (
                LoopStage::Read(position),
                left,
            )
            &&& position == num_queues ==> dispatch(num_queues, slave, pending) == (
                LoopStage::Stopped,
                left,
            )
            &&& slave && position == num_queues + 1 ==> dispatch(num_queues, slave, pending) == (
                LoopStage::Slave,
                left,
            )
        }),
    decreases first,
{
    let rest = pending.drop_first();
    if first == 0 {
        assert(rest =~= pending.subrange(1, pending.len() as int));
    } else {
        assert(pending[0] as usize > num_queues);
        assert forall|j: int| 0 <= j < first - 1 implies (#[trigger] rest[j] as usize) > num_queues
            && !(slave && (rest[j] as usize) == num_queues + 1) by {
            assert(rest[j] == pending[j + 1]);
        }
        law_first_known_event_decides(num_queues, slave, rest, first - 1);
        assert(rest.subrange(first, rest.len() as int) =~= pending.subrange(
            first + 1,
            pending.len() as int,
        ));
    }
}

/// Without an event of a known source the worker waits again, and no event is
/// left.
pub proof fn law_unknown_events_lead_to_wait(num_queues: usize, slave: bool, pending: Seq<u64>)
    requires
        forall|j: int|
            0 <= j < pending.len() ==> (#[trigger] pending[j] as usize) > num_queues && !(slave
                && (pending[j] as usize) == num_queues + 1),
    ensures
        dispatch(num_queues, slave, pending) == (LoopStage::Wait, Seq::<u64>::empty()),
    decreases pending.len(),
{
    if pending.len() == 0 {
        assert(pending =~= Seq::empty());
    } else {
        let rest = pending.drop_first();
        assert(pending[0] as usize > num_queues);
        assert forall|j: int| 0 <= j < rest.len() implies (#[trigger] rest[j] as usize)
            > num_queues && !(slave && (rest[j] as usize) == num_queues + 1) by {
            assert(rest[j] == pending[j + 1]);
        }
        law_unknown_events_lead_to_wait(num_queues, slave, rest);
    }
}

/// A wait that reports `num_events` events has reported exactly the first
/// `num_events` entries of the buffer, or all of it if it is shorter: the worker
/// handles the first of them that has a known source, and what is left are those
/// reported after it.
pub proof fn law_reported_events_are_handled(
    worker: LoopView,
    data: Vec<u64>,
    num_events: usize,
    count: int,
    first: int,
)
    requires
        worker.stage == LoopStage::Wait,
        count <= num_events,
        count <= data@.len(),
        count == num_events || count == data@.len(),
        0 <= first < count,
        forall|j: int|
            0 <= j < first ==> (#[trigger] data@[j] as usize) > worker.num_queues && !(worker.slave
                && (data@[j] as usize) == worker.num_queues + 1),
    ensures
        ({
            let position = data@[first] as usize;
            let left = data@.subrange(first + 1, count);
            let (after, result) = worker.next(EpollReply::Ready { data, num_events });
            &&& position < worker.num_queues ==> after == (LoopView {
                stage: LoopStage::Read(position),
                pending: left,
                ..worker
            })
            &&& position == worker.num_queues ==> after == (LoopView {
                stage: LoopStage::Stopped,
                pending: left,
                ..worker
            })
            &&& worker.slave && position == worker.num_queues + 1 ==> after == (LoopView {
                stage: LoopStage::Slave,
                pending: left,
                ..worker
            })
            &&& result == Ok::<(), FsError>(())
        }),
{
    let pending = reported(data@, num_events);
    assert(pending =~= data@.subrange(0, count));
    assert forall|j: int| 0 <= j < first implies (#[trigger] pending[j] as usize)
        > worker.num_queues && !(worker.slave && (pending[j] as usize) == worker.num_queues + 1) by {
        assert(pending[j] == data@[j]);
    }
    law_first_known_event_decides(worker.num_queues, worker.slave, pending, first);
    assert(pending.subrange(first + 1, pending.len() as int) =~= data@.subrange(first + 1, count));
}

/// A wait that reports no event of a known source is followed by another wait,
/// with no event left.
pub proof fn law_wait_follows_unknown_events(
    worker: LoopView,
    data: Vec<u64>,
    num_events: usize,
)
    requires
        worker.stage == LoopStage::Wait,
        forall|j: int|
            0 <= j < num_events && j < data@.len() ==> (#[trigger] data@[j] as usize)
                > worker.num_queues && !(worker.slave && (data@[j] as usize) == worker.num_queues
                + 1),
    ensures
        worker.next(EpollReply::Ready { data, num_events }) == (
            LoopView { stage: LoopStage::Wait, pending: Seq::<u64>::empty(), ..worker },
            Ok::<(), FsError>(()),
        ),
{
    let pending = reported(data@, num_events);
    assert forall|j: int| 0 <= j < pending.len() implies (#[trigger] pending[j] as usize)
        > worker.num_queues && !(worker.slave && (pending[j] as usize) == worker.num_queues + 1) by {
        assert(pending[j] == data@[j]);
    }
    law_unknown_events_lead_to_wait(worker.num_queues, worker.slave, pending);
}

/// Entries that were left over in the event buffer do not count: buffers that
/// agree on the reported entries lead to the same worker.
pub proof fn law_left_over_entries_do_not_count(
    worker: LoopView,
    data1: Vec<u64>,
    data2: Vec<u64>,
    num_events: usize,
)
    requires
        num_events <= data1@.len(),
        num_events <= data2@.len(),
        forall|j: int| 0 <= j < num_events ==> #[trigger] data1@[j] == data2@[j],
    ensures
        worker.next(EpollReply::Ready { data: data1, num_events }) == worker.next(
            EpollReply::Ready { data: data2, num_events },
        ),
        reported(data1@, num_events) == data1@.subrange(0, num_events as int),
{
    assert(reported(data1@, num_events) =~= reported(data2@, num_events));
    assert(reported(data1@, num_events) =~= data1@.subrange(0, num_events as int));
}

/// Once a queue has been signalled, or a request of the daemon handled, the
/// worker turns to the first event of a known source among those that are left.
pub proof fn law_left_events_are_handled(
    worker: LoopView,
    reply: EpollReply,
    queue: usize,
    first: int,
)
    requires
        ({
            ||| worker.stage == LoopStage::Signal(queue) && reply == EpollReply::QueueSignaled(true)
            ||| worker.stage == LoopStage::Slave && reply matches EpollReply::SlaveHandled(Ok(_))
        }),
        0 <= first <= worker.pending.len(),
        forall|j: int|
            0 <= j < first ==> (#[trigger] worker.pending[j] as usize) > worker.num_queues && !(
            worker.slave && (worker.pending[j] as usize) == worker.num_queues + 1),
    ensures
        ({
            let pending = worker.pending;
            let position = pending[first] as usize;
            let left = pending.subrange(first + 1, pending.len() as int);
            let (after, result) = worker.next(reply);
            &&& first == pending.len() ==> after == (LoopView {
                stage: LoopStage::Wait,
                pending: Seq::<u64>::empty(),
                ..worker
            })
            &&& first < pending.len() && position < worker.num_queues ==> after == (LoopView {
                stage: LoopStage::Read(position),
                pending: left,
                ..worker
            })
            &&& first < pending.len() && position == worker.num_queues ==> after == (LoopView {
                stage: LoopStage::Stopped,
                pending: left,
                ..worker
            })
            &&& first < pending.len() && worker.slave && position == worker.num_queues + 1
                ==> after == (LoopView { stage: LoopStage::Slave, pending: left, ..worker })
            &&& result == Ok::<(), FsError>(())
        }),
{
    if first < worker.pending.len() {
        law_first_known_event_decides(worker.num_queues, worker.slave, worker.pending, first);
    } else {
        law_unknown_events_lead_to_wait(worker.num_queues, worker.slave, worker.pending);
    }
}

/// The call that the worker makes at each stage. A source is registered for
/// reading, with its position as the event data.
pub proof fn law_call_at_each_stage(worker: LoopView, index: usize)
    ensures
        worker.stage == LoopStage::Create ==> worker.call() == Some(
            EpollCall::Create { cloexec: true },
        ),
        worker.stage == LoopStage::Register(index) && index < worker.num_queues ==> worker.call()
            == Some(
            EpollCall::Register { source: Source::Queue(index), events: 1u32, data: index as u64 },
        ),
        worker.stage == LoopStage::Register(index) && index == worker.num_queues ==> worker.call()
            == Some(EpollCall::Register { source: Source::Kill, events: 1u32, data: index as u64 }),
        worker.stage == LoopStage::Register(index) && worker.slave && index == worker.num_queues + 1
            ==> worker.call() == Some(
            EpollCall::Register { source: Source::Slave, events: 1u32, data: index as u64 },
        ),
        worker.stage == LoopStage::Wait ==> worker.call() == Some(
            EpollCall::Wait { timeout: -1i32, max_events: 100usize },
        ),
        worker.stage == LoopStage::Read(index) ==> worker.call() == Some(
            EpollCall::ReadQueue(index),
        ),
        worker.stage == LoopStage::Signal(index) ==> worker.call() == Some(
            EpollCall::SignalQueue(index),
        ),
        worker.stage == LoopStage::Slave ==> worker.call() == Some(EpollCall::HandleSlaveRequest),
        worker.stage == LoopStage::Stopped ==> worker.call() == None::<EpollCall>,
{
}

/// A worker starts with the creation of the epoll set. Then the sources are
/// registered one after the other, the request channel or else the kill event
/// last, and the wait comes after the last of them.
pub proof fn law_registration_in_order(worker: LoopView, position: usize, last: int)
    requires
        last == worker.num_queues + (if worker.slave {
            1int
        } else {
            0int
        }),
        position <= last,
    ensures
        LoopView::initial(worker.num_queues, worker.slave) == (LoopView {
            num_queues: worker.num_queues,
            slave: worker.slave,
            stage: LoopStage::Create,
            pending: Seq::<u64>::empty(),
        }),
        worker.stage == LoopStage::Create ==> worker.next(EpollReply::Created(Ok(()))) == (
            LoopView { stage: LoopStage::Register(0usize), ..worker },
            Ok::<(), FsError>(()),
        ),
        worker.stage == LoopStage::Register(position) && position < last ==> {
            &&& worker.next(EpollReply::Registered(Ok(()))) == (
                LoopView { stage: LoopStage::Register((position + 1) as usize), ..worker },
                Ok::<(), FsError>(()),
            )
            &&& last <= usize::MAX ==> (position + 1) as usize == position + 1
        },
        worker.stage == LoopStage::Register(position) && position == last ==> worker.next(
            EpollReply::Registered(Ok(())),
        ) == (LoopView { stage: LoopStage::Wait, ..worker }, Ok::<(), FsError>(())),
{
}

/// Each call that fails for good ends the worker with the error that names it,
/// and the events that were left stay unhandled.
pub proof fn law_failed_call_ends_worker(
    worker: LoopView,
    position: usize,
    error: std::io::Error,
    slave_error: vhost::vhost_user::Error,
)
    ensures
        ({
            let stopped = LoopView { stage: LoopStage::Stopped, ..worker };
            &&& worker.stage == LoopStage::Create ==> worker.next(EpollReply::Created(Err(error)))
                == (stopped, Err::<(), FsError>(FsError::EpollCreateFd(error)))
            &&& worker.stage == LoopStage::Register(position) ==> worker.next(
                EpollReply::Registered(Err(error)),
            ) == (stopped, Err::<(), FsError>(FsError::EpollCtl(error)))
            &&& worker.stage == LoopStage::Wait ==> worker.next(
                EpollReply::WaitFailed { kind: WaitErrorKind::Other, error },
            ) == (stopped, Err::<(), FsError>(FsError::EpollWait(error)))
            &&& worker.stage == LoopStage::Slave ==> worker.next(
                EpollReply::SlaveHandled(Err(slave_error)),
            ) == (stopped, Err::<(), FsError>(FsError::VhostUserSlaveRequest(slave_error)))
        }),
{
}

/// What a queue event leads to: a read that succeeds is followed by the signal
/// for the same queue; a read or a signal that fails ends the worker, without an
/// error. The events that are left stay as they are.
pub proof fn law_queue_event_steps(worker: LoopView, queue: usize)
    ensures
        worker.stage == LoopStage::Read(queue) ==> worker.next(EpollReply::QueueRead(true)) == (
            LoopView { stage: LoopStage::Signal(queue), ..worker },
            Ok::<(), FsError>(()),
        ),
        worker.stage == LoopStage::Read(queue) ==> worker.next(EpollReply::QueueRead(false)) == (
            LoopView { stage: LoopStage::Stopped, ..worker },
            Ok::<(), FsError>(()),
        ),
        worker.stage == LoopStage::Signal(queue) ==> worker.next(EpollReply::QueueSignaled(false))
            == (LoopView { stage: LoopStage::Stopped, ..worker }, Ok::<(), FsError>(())),
{
}

/// A reply to a call that the worker does not wait for changes nothing.
pub proof fn law_other_replies_change_nothing(worker: LoopView, reply: EpollReply)
    requires
        match reply {
            EpollReply::Created(_) => worker.stage != LoopStage::Create,
            EpollReply::Registered(_) => worker.stage !is Register,
            EpollReply::Ready { .. } => worker.stage != LoopStage::Wait,
            EpollReply::WaitFailed { .. } => worker.stage != LoopStage::Wait,
            EpollReply::QueueRead(_) => worker.stage !is Read,
            EpollReply::QueueSignaled(_) => worker.stage !is Signal,
            EpollReply::SlaveHandled(_) => worker.stage != LoopStage::Slave,
        },
    ensures
        worker.next(reply) == (worker, Ok::<(), FsError>(())),
{
}

} // verus!
