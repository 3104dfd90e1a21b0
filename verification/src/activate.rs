//! Starting a device once the guest driver is ready.
//!
//! The activation creates the kill event, hands the queues to the backend,
//! opens a channel for requests of the daemon where the device takes them, and
//! starts the worker.
use crate::device::Fs;
use crate::device::FsView;
use crate::error::ActivateError;
use crate::error::FsError;
use crate::host;
use crate::host::EFD_NONBLOCK;
use crate::host::PROTOCOL_FEATURES;
use crate::shm::ShmView;
use crate::slave::SlaveReqHandler;
use vmm_sys_util::eventfd::EventFd;
use vstd::prelude::*;

verus! {

/// Where an activation stands: the call whose result it waits for. A reply uses
/// the activation up, so that none is left after an error.
#[derive(Debug, PartialEq, Eq, Structural)]
pub enum Activation {
    /// Creation of the kill event.
    KillEvent,
    /// Setting up the backend.
    VhostUser,
    /// Creation of the handler for requests of the daemon. The backend has
    /// `call_evts` call events.
    SlaveHandler { call_evts: usize },
    /// Handing the request channel to the backend.
    SlaveRequestFd { call_evts: usize },
    /// Starting the worker, which takes requests of the daemon if `slave`.
    Worker { call_evts: usize, slave: bool },
    /// The device is active.
    Active,
}

/// A call that the activation has to make next.
#[derive(Clone, Copy, Debug, PartialEq, Eq, Structural)]
pub enum ActivateCall {
    /// Create the kill event with these flags, and a clone of it.
    CreateKillEvent { flags: i32 },
    /// Hand the queues, their events and the acknowledged features to the
    /// backend.
    SetupVhostUser { acked_features: u64 },
    /// Create a request channel that this handler serves.
    CreateSlaveHandler(SlaveReqHandler),
    /// Hand the request channel to the backend.
    SetSlaveRequestFd,
    /// Start the worker for this many call events, with the request channel if
    /// `slave`.
    SpawnWorker { num_queues: usize, slave: bool },
}

/// The result of a call that the activation made.
#[derive(Debug)]
pub enum ActivateReply {
    /// The kill event was created and cloned, or not; the clone is for the
    /// device.
    KillEvent(Result<EventFd, std::io::Error>),
    /// The backend was set up with this many call events, or not.
    VhostUser(Result<usize, FsError>),
    /// The request channel was created, or not.
    SlaveHandler(Result<(), vhost::vhost_user::Error>),
    /// The request channel was handed over, or not.
    SlaveRequestFd(Result<(), vhost::Error>),
    /// The worker was started, or not.
    Worker(Result<(), std::io::Error>),
}

impl Activation {
    /// The call whose result the activation of `fs` waits for.
    pub open spec fn awaited(self, fs: FsView) -> Option<ActivateCall> {
        match self {
            Activation::KillEvent => Some(ActivateCall::CreateKillEvent { flags: EFD_NONBLOCK }),
            Activation::VhostUser => Some(
                ActivateCall::SetupVhostUser { acked_features: fs.acked_features },
            ),
            Activation::SlaveHandler { call_evts } => match fs.slave_handler() {
                Some(handler) => Some(ActivateCall::CreateSlaveHandler(handler)),
                None => None,
            },
            Activation::SlaveRequestFd { call_evts } => Some(ActivateCall::SetSlaveRequestFd),
            Activation::Worker { call_evts, slave } => Some(
                ActivateCall::SpawnWorker { num_queues: call_evts, slave },
            ),
            Activation::Active => None,
        }
    }

    /// The stage, or the error that ends the activation of `fs`, once a reply
    /// has come in. A reply that does not answer the awaited call changes
    /// nothing.
    pub open spec fn next(self, fs: FsView, reply: ActivateReply) -> Result<
        Activation,
        ActivateError,
    > {
        match (self, reply) {
            (Activation::KillEvent, ActivateReply::KillEvent(Ok(_))) => Ok(Activation::VhostUser),
            (Activation::KillEvent, ActivateReply::KillEvent(Err(_))) => Err(
                ActivateError::BadActivate,
            ),
            (Activation::VhostUser, ActivateReply::VhostUser(Ok(call_evts))) => Ok(
                if fs.slave_handler() is Some {
                    Activation::SlaveHandler { call_evts }
                } else {
                    Activation::Worker { call_evts, slave: false }
                },
            ),
            (Activation::VhostUser, ActivateReply::VhostUser(Err(e))) => Err(
                ActivateError::VhostUserSetup(e),
            ),
            (Activation::SlaveHandler { call_evts }, ActivateReply::SlaveHandler(Ok(_))) => Ok(
                Activation::SlaveRequestFd { call_evts },
            ),
            (Activation::SlaveHandler { call_evts }, ActivateReply::SlaveHandler(Err(e))) => Err(
                ActivateError::VhostUserSetup(FsError::MasterReqHandlerCreation(e)),
            ),
            (Activation::SlaveRequestFd { call_evts }, ActivateReply::SlaveRequestFd(Ok(_))) => Ok(
                Activation::Worker { call_evts, slave: true },
            ),
            (Activation::SlaveRequestFd { call_evts }, ActivateReply::SlaveRequestFd(Err(e))) => Err(
                ActivateError::VhostUserSetup(FsError::VhostUserSetSlaveRequestFd(e)),
            ),
            (Activation::Worker { call_evts, slave }, ActivateReply::Worker(Ok(_))) => Ok(
                Activation::Active,
            ),
            (Activation::Worker { call_evts, slave }, ActivateReply::Worker(Err(_))) => Err(
                ActivateError::BadActivate,
            ),
            _ => Ok(self),
        }
    }

    /// The device once a reply has come in: it keeps the clone of the kill event.
    pub open spec fn device_after(self, fs: FsView, reply: ActivateReply) -> FsView {
        match (self, reply) {
            (Activation::KillEvent, ActivateReply::KillEvent(Ok(evt))) => fs.armed(evt),
            _ => fs,
        }
    }

    /// The call that the activation of `fs` has to make next; none once the
    /// device is active.
    pub fn call(&self, fs: &Fs) -> (call: Option<ActivateCall>)
        ensures
            call == self.awaited(fs@),
    {
        match *self {
            Activation::KillEvent => Some(
                ActivateCall::CreateKillEvent { flags: host::efd_nonblock() },
            ),
            Activation::VhostUser => Some(
                ActivateCall::SetupVhostUser { acked_features: fs.acked_features() },
            ),
            Activation::SlaveHandler { .. } => match fs.slave_req_handler() {
                Some(handler) => Some(ActivateCall::CreateSlaveHandler(handler)),
                None => None,
            },
            Activation::SlaveRequestFd { .. } => Some(ActivateCall::SetSlaveRequestFd),
            Activation::Worker { call_evts, slave } => Some(
                ActivateCall::SpawnWorker { num_queues: call_evts, slave },
            ),
            Activation::Active => None,
        }
    }

    /// Takes the result of the awaited call. An error ends the activation.
    pub fn reply(self, fs: &mut Fs, reply: ActivateReply) -> (result: Result<
        Activation,
        ActivateError,
    >)
        ensures
            result == self.next(old(fs)@, reply),
            final(fs)@ == self.device_after(old(fs)@, reply),
    {
        match (self, reply) {
            (Activation::KillEvent, ActivateReply::KillEvent(Ok(evt))) => {
                fs.arm(evt);
                Ok(Activation::VhostUser)
            },
            (Activation::KillEvent, ActivateReply::KillEvent(Err(_))) => Err(
                ActivateError::BadActivate,
            ),
            (Activation::VhostUser, ActivateReply::VhostUser(Ok(call_evts))) => {
                if fs.slave_req_handler().is_some() {
                    Ok(Activation::SlaveHandler { call_evts })
                } else {
                    Ok(Activation::Worker { call_evts, slave: false })
                }
            },
            (Activation::VhostUser, ActivateReply::VhostUser(Err(e))) => Err(
                ActivateError::VhostUserSetup(e),
            ),
            (Activation::SlaveHandler { call_evts }, ActivateReply::SlaveHandler(Ok(_))) => Ok(
                Activation::SlaveRequestFd { call_evts },
            ),
            (Activation::SlaveHandler { .. }, ActivateReply::SlaveHandler(Err(e))) => Err(
                ActivateError::VhostUserSetup(FsError::MasterReqHandlerCreation(e)),
            ),
            (Activation::SlaveRequestFd { call_evts }, ActivateReply::SlaveRequestFd(Ok(_))) => Ok(
                Activation::Worker { call_evts, slave: true },
            ),
            (Activation::SlaveRequestFd { .. }, ActivateReply::SlaveRequestFd(Err(e))) => Err(
                ActivateError::VhostUserSetup(FsError::VhostUserSetSlaveRequestFd(e)),
            ),
            (Activation::Worker { .. }, ActivateReply::Worker(Ok(_))) => Ok(Activation::Active),
            (Activation::Worker { .. }, ActivateReply::Worker(Err(_))) => Err(
                ActivateError::BadActivate,
            ),
            (stage, _) => Ok(stage),
        }
    }
}

/// When every call succeeds, the activation of a device that takes requests of
/// the daemon makes five calls in this order. The worker serves all call events
/// and the request channel, whose handler knows the window of the device.
pub proof fn law_activation_with_slave_handler(
    fs: FsView,
    evt: EventFd,
    call_evts: usize,
    handler: SlaveReqHandler,
)
    requires
        fs.slave_handler() == Some(handler),
    ensures
        ({
            let armed = fs.armed(evt);
            let kill = Activation::KillEvent;
            let vhost_user = Activation::VhostUser;
            let slave_handler = Activation::SlaveHandler { call_evts };
            let request_fd = Activation::SlaveRequestFd { call_evts };
            let worker = Activation::Worker { call_evts, slave: true };
            &&& kill.awaited(fs) == Some(ActivateCall::CreateKillEvent { flags: EFD_NONBLOCK })
            &&& kill.next(fs, ActivateReply::KillEvent(Ok(evt))) == Ok::<Activation, ActivateError>(
                vhost_user,
            )
            &&& kill.device_after(fs, ActivateReply::KillEvent(Ok(evt))) == armed
            &&& vhost_user.awaited(armed) == Some(
                ActivateCall::SetupVhostUser { acked_features: fs.acked_features },
            )
            &&& vhost_user.next(armed, ActivateReply::VhostUser(Ok(call_evts))) == Ok::<
                Activation,
                ActivateError,
            >(slave_handler)
            &&& slave_handler.awaited(armed) == Some(ActivateCall::CreateSlaveHandler(handler))
            &&& slave_handler.next(armed, ActivateReply::SlaveHandler(Ok(()))) == Ok::<
                Activation,
                ActivateError,
            >(request_fd)
            &&& request_fd.awaited(armed) == Some(ActivateCall::SetSlaveRequestFd)
            &&& request_fd.next(armed, ActivateReply::SlaveRequestFd(Ok(()))) == Ok::<
                Activation,
                ActivateError,
            >(worker)
            &&& worker.awaited(armed) == Some(
                ActivateCall::SpawnWorker { num_queues: call_evts, slave: true },
            )
            &&& worker.next(armed, ActivateReply::Worker(Ok(()))) == Ok::<
                Activation,
                ActivateError,
            >(Activation::Active)
            &&& Activation::Active.awaited(armed) is None
        }),
{
}

/// When every call succeeds, the activation of a device that takes no requests
/// of the daemon makes three calls in this order, and the worker serves the call
/// events alone.
pub proof fn law_activation_without_slave_handler(fs: FsView, evt: EventFd, call_evts: usize)
    requires
        fs.slave_handler() is None,
    ensures
        ({
            let armed = fs.armed(evt);
            let kill = Activation::KillEvent;
            let vhost_user = Activation::VhostUser;
            let worker = Activation::Worker { call_evts, slave: false };
            &&& kill.awaited(fs) == Some(ActivateCall::CreateKillEvent { flags: EFD_NONBLOCK })
            &&& kill.next(fs, ActivateReply::KillEvent(Ok(evt))) == Ok::<Activation, ActivateError>(
                vhost_user,
            )
            &&& kill.device_after(fs, ActivateReply::KillEvent(Ok(evt))) == armed
            &&& vhost_user.awaited(armed) == Some(
                ActivateCall::SetupVhostUser { acked_features: fs.acked_features },
            )
            &&& vhost_user.next(armed, ActivateReply::VhostUser(Ok(call_evts))) == Ok::<
                Activation,
                ActivateError,
            >(worker)
            &&& worker.awaited(armed) == Some(
                ActivateCall::SpawnWorker { num_queues: call_evts, slave: false },
            )
            &&& worker.next(armed, ActivateReply::Worker(Ok(()))) == Ok::<
                Activation,
                ActivateError,
            >(Activation::Active)
        }),
{
}

/// A step of the activation changes nothing of the device but its kill event,
/// and that only when the kill event has been created; a device keeps the kill
/// event when a later call fails.
pub proof fn law_activation_keeps_device(
    activation: Activation,
    fs: FsView,
    reply: ActivateReply,
)
    ensures
        ({
            let after = activation.device_after(fs, reply);
            &&& after == (FsView { kill_evt: after.kill_evt, ..fs })
            &&& fs.wf() ==> after.wf()
            &&& activation != Activation::KillEvent ==> after == fs
            &&& activation.next(fs, reply) is Err ==> after == fs
        }),
{
}

/// A device takes requests of the daemon exactly if it has a window and its
/// backend has protocol features, and nothing that happens to the device later
/// changes this or the window that the handler knows.
pub proof fn law_slave_handler_is_settled_by_setup(
    tag: Seq<u8>,
    req_num_queues: usize,
    queue_size: u16,
    cache: Option<(ShmView, u64)>,
    avail_features: u64,
)
    ensures
        ({
            let fs = FsView::built(tag, req_num_queues, queue_size, cache, avail_features);
            match cache {
                Some((window, host_addr)) => fs.slave_handler() == if avail_features
                    & PROTOCOL_FEATURES != 0 {
                    Some(SlaveReqHandler { cache_size: window.len, mmap_cache_addr: host_addr })
                } else {
                    None
                },
                None => fs.slave_handler() is None,
            }
        }),
        forall|fs: FsView, page: u32, value: u32|
            (#[trigger] fs.acked(page, value)).slave_handler() == fs.slave_handler(),
        forall|fs: FsView, offset: u64, data: Seq<u8>|
            (#[trigger] fs.written(offset, data)).slave_handler() == fs.slave_handler(),
        forall|fs: FsView, evt: EventFd|
            (#[trigger] fs.armed(evt)).slave_handler() == fs.slave_handler(),
{
}

/// The call that the activation makes at each stage.
pub proof fn law_call_at_each_stage(
    fs: FsView,
    handler: SlaveReqHandler,
    call_evts: usize,
    slave: bool,
)
    ensures
        Activation::KillEvent.awaited(fs) == Some(ActivateCall::CreateKillEvent { flags: 0x800i32 }),
        Activation::VhostUser.awaited(fs) == Some(
            ActivateCall::SetupVhostUser { acked_features: fs.acked_features },
        ),
        fs.slave_handler() == Some(handler) ==> (Activation::SlaveHandler { call_evts }).awaited(fs)
            == Some(ActivateCall::CreateSlaveHandler(handler)),
        fs.slave_handler() is None ==> (Activation::SlaveHandler { call_evts }).awaited(fs) is None,
        (Activation::SlaveRequestFd { call_evts }).awaited(fs) == Some(
            ActivateCall::SetSlaveRequestFd,
        ),
        (Activation::Worker { call_evts, slave }).awaited(fs) == Some(
            ActivateCall::SpawnWorker { num_queues: call_evts, slave },
        ),
        Activation::Active.awaited(fs) == None::<ActivateCall>,
{
}

/// What a successful call leads to at each stage. The request channel is created
/// and handed over exactly if the backend has protocol features and the device
/// has a window, and only then does the worker serve it.
pub proof fn law_success_at_each_stage(
    fs: FsView,
    evt: EventFd,
    call_evts: usize,
    slave: bool,
)
    ensures
        Activation::KillEvent.next(fs, ActivateReply::KillEvent(Ok(evt))) == Ok::<
            Activation,
            ActivateError,
        >(Activation::VhostUser),
        Activation::VhostUser.next(fs, ActivateReply::VhostUser(Ok(call_evts))) == Ok::<
            Activation,
            ActivateError,
        >(
            if fs.slave_req_support && fs.cache is Some {
                Activation::SlaveHandler { call_evts }
            } else {
                Activation::Worker { call_evts, slave: false }
            },
        ),
        (Activation::SlaveHandler { call_evts }).next(fs, ActivateReply::SlaveHandler(Ok(())))
            == Ok::<Activation, ActivateError>(Activation::SlaveRequestFd { call_evts }),
        (Activation::SlaveRequestFd { call_evts }).next(fs, ActivateReply::SlaveRequestFd(Ok(())))
            == Ok::<Activation, ActivateError>(Activation::Worker { call_evts, slave: true }),
        (Activation::Worker { call_evts, slave }).next(fs, ActivateReply::Worker(Ok(()))) == Ok::<
            Activation,
            ActivateError,
        >(Activation::Active),
{
}

/// What a failed call leads to at each stage: the activation ends with this
/// error.
pub proof fn law_failure_at_each_stage(
    fs: FsView,
    call_evts: usize,
    slave: bool,
    io_error: std::io::Error,
    fs_error: FsError,
    transport_error: vhost::vhost_user::Error,
    vhost_error: vhost::Error,
)
    ensures
        Activation::KillEvent.next(fs, ActivateReply::KillEvent(Err(io_error))) == Err::<
            Activation,
            ActivateError,
        >(ActivateError::BadActivate),
        Activation::VhostUser.next(fs, ActivateReply::VhostUser(Err(fs_error))) == Err::<
            Activation,
            ActivateError,
        >(ActivateError::VhostUserSetup(fs_error)),
        (Activation::SlaveHandler { call_evts }).next(
            fs,
            ActivateReply::SlaveHandler(Err(transport_error)),
        ) == Err::<Activation, ActivateError>(
            ActivateError::VhostUserSetup(FsError::MasterReqHandlerCreation(transport_error)),
        ),
        (Activation::SlaveRequestFd { call_evts }).next(
            fs,
            ActivateReply::SlaveRequestFd(Err(vhost_error)),
        ) == Err::<Activation, ActivateError>(
            ActivateError::VhostUserSetup(FsError::VhostUserSetSlaveRequestFd(vhost_error)),
        ),
        (Activation::Worker { call_evts, slave }).next(fs, ActivateReply::Worker(Err(io_error)))
            == Err::<Activation, ActivateError>(ActivateError::BadActivate),
{
}

/// Once the activation has taken the kill event, the device has this event,
/// whatever else holds of it; no other reply changes the device.
pub proof fn law_device_keeps_kill_event(
    activation: Activation,
    fs: FsView,
    reply: ActivateReply,
    evt: EventFd,
)
    ensures
        Activation::KillEvent.device_after(fs, ActivateReply::KillEvent(Ok(evt))) == (FsView {
            kill_evt: Some(evt),
            ..fs
        }),
        !(activation == Activation::KillEvent && reply matches ActivateReply::KillEvent(Ok(_)))
            ==> activation.device_after(fs, reply) == fs,
{
}

/// A reply to a call that the activation does not wait for changes nothing.
pub proof fn law_other_replies_change_nothing(
    activation: Activation,
    fs: FsView,
    reply: ActivateReply,
)
    requires
        match reply {
            ActivateReply::KillEvent(_) => activation != Activation::KillEvent,
            ActivateReply::VhostUser(_) => activation != Activation::VhostUser,
            ActivateReply::SlaveHandler(_) => activation !is SlaveHandler,
            ActivateReply::SlaveRequestFd(_) => activation !is SlaveRequestFd,
            ActivateReply::Worker(_) => activation !is Worker,
        },
    ensures
        activation.next(fs, reply) == Ok::<Activation, ActivateError>(activation),
        activation.device_after(fs, reply) == fs,
{
}

} // verus!
