//! Bringing a device up.
//!
//! The setup connects to the backend, takes ownership of it, and agrees with it
//! on the features and, where the backend has them, on the protocol features.
use crate::device::Fs;
use crate::device::FsView;
use crate::device::KNOWN_FEATURES;
use crate::device::NUM_QUEUE_OFFSET;
use crate::device::VIRTIO_F_VERSION_1;
use crate::error::FsError;
use crate::host;
use crate::host::MQ;
use crate::host::PROTOCOL_FEATURES;
use crate::host::REPLY_ACK;
use crate::host::SLAVE_REQ;
use crate::host::SLAVE_SEND_FD;
use crate::shm::cache_view;
use crate::shm::ShmView;
use crate::shm::VirtioSharedMemoryList;
use vstd::prelude::*;

verus! {

/// The protocol features that a device without a window knows.
pub const PROTOCOL_WITHOUT_CACHE: u64 = 0x9;

/// The protocol features that a device with a window knows.
pub const PROTOCOL_WITH_CACHE: u64 = 0x429;

/// Where a setup stands: the call whose result it waits for, and what has been
/// agreed on so far.
#[derive(Clone, Copy, Debug, PartialEq, Eq, Structural)]
pub enum Stage {
    /// Connecting.
    Connect,
    /// Taking ownership.
    SetOwner,
    /// Reading the features of the backend.
    GetFeatures,
    /// Setting the features that both sides have.
    SetFeatures { avail: u64 },
    /// Reading the protocol features of the backend.
    GetProtocolFeatures { avail: u64 },
    /// Setting the protocol features that both sides have.
    SetProtocolFeatures { avail: u64, protocol: u64 },
    /// Everything has been agreed on.
    Ready { avail: u64 },
    /// A call has failed, and the setup has ended.
    Failed,
}

/// A call to the backend that the setup has to make next.
#[derive(Debug, PartialEq, Eq)]
pub enum Request {
    /// Connect to the socket at `path`, for `queue_num` queues.
    Connect { path: String, queue_num: u64 },
    /// Take ownership.
    SetOwner,
    /// Read the features.
    GetFeatures,
    /// Set the features.
    SetFeatures(u64),
    /// Read the protocol features.
    GetProtocolFeatures,
    /// Set the protocol features.
    SetProtocolFeatures(u64),
}

/// A call to the backend as contracts see it.
pub enum RequestView {
    /// Connect to the socket at `path`, for `queue_num` queues.
    Connect { path: Seq<char>, queue_num: u64 },
    /// Take ownership.
    SetOwner,
    /// Read the features.
    GetFeatures,
    /// Set the features.
    SetFeatures(u64),
    /// Read the protocol features.
    GetProtocolFeatures,
    /// Set the protocol features.
    SetProtocolFeatures(u64),
}

impl View for Request {
    type V = RequestView;

    open spec fn view(&self) -> RequestView {
        match *self {
            Request::Connect { path, queue_num } => RequestView::Connect { path: path@, queue_num },
            Request::SetOwner => RequestView::SetOwner,
            Request::GetFeatures => RequestView::GetFeatures,
            Request::SetFeatures(features) => RequestView::SetFeatures(features),
            Request::GetProtocolFeatures => RequestView::GetProtocolFeatures,
            Request::SetProtocolFeatures(features) => RequestView::SetProtocolFeatures(features),
        }
    }
}

/// The result of a call to the backend.
#[derive(Debug)]
pub enum Reply {
    /// A call that yields nothing succeeded.
    Done,
    /// A call that reads a bit mask succeeded.
    Value(u64),
    /// The call failed.
    Failed(vhost::Error),
}

/// The protocol features that a device knows.
pub open spec fn known_protocol_features(with_cache: bool) -> u64 {
    if with_cache {
        PROTOCOL_WITH_CACHE
    } else {
        PROTOCOL_WITHOUT_CACHE
    }
}

impl Stage {
    /// The stage, or the error that ends the setup, once a reply has come in.
    /// A reply that does not answer the awaited call changes nothing.
    pub open spec fn next(self, with_cache: bool, reply: Reply) -> Result<Stage, FsError> {
        match (self, reply) {
            (Stage::Connect, Reply::Done) => Ok(Stage::SetOwner),
            (Stage::Connect, Reply::Failed(e)) => Err(FsError::VhostUserCreateMaster(e)),
            (Stage::SetOwner, Reply::Done) => Ok(Stage::GetFeatures),
            (Stage::SetOwner, Reply::Failed(e)) => Err(FsError::VhostUserSetOwner(e)),
            (Stage::GetFeatures, Reply::Value(features)) => Ok(
                Stage::SetFeatures { avail: KNOWN_FEATURES & features },
            ),
            (Stage::GetFeatures, Reply::Failed(e)) => Err(FsError::VhostUserGetFeatures(e)),
            (Stage::SetFeatures { avail }, Reply::Done) => Ok(
                if avail & PROTOCOL_FEATURES != 0 {
                    Stage::GetProtocolFeatures { avail }
                } else {
                    Stage::Ready { avail }
                },
            ),
            (Stage::SetFeatures { avail }, Reply::Failed(e)) => Err(
                FsError::VhostUserSetFeatures(e),
            ),
            (Stage::GetProtocolFeatures { avail }, Reply::Value(features)) => Ok(
                Stage::SetProtocolFeatures {
                    avail,
                    protocol: features & known_protocol_features(with_cache),
                },
            ),
            (Stage::GetProtocolFeatures { avail }, Reply::Failed(e)) => Err(
                FsError::VhostUserGetProtocolFeatures(e),
            ),
            (Stage::SetProtocolFeatures { avail, protocol }, Reply::Done) => Ok(
                Stage::Ready { avail },
            ),
            (Stage::SetProtocolFeatures { avail, protocol }, Reply::Failed(e)) => Err(
                FsError::VhostUserSetProtocolFeatures(e),
            ),
            _ => Ok(self),
        }
    }

    /// What has been agreed on lies within what the device knows.
    pub open spec fn wf(self, with_cache: bool) -> bool {
        match self {
            Stage::SetFeatures { avail } => avail & !KNOWN_FEATURES == 0,
            Stage::GetProtocolFeatures { avail } => {
                &&& avail & !KNOWN_FEATURES == 0
                &&& avail & PROTOCOL_FEATURES != 0
            },
            Stage::SetProtocolFeatures { avail, protocol } => {
                &&& avail & !KNOWN_FEATURES == 0
                &&& avail & PROTOCOL_FEATURES != 0
                &&& protocol & !known_protocol_features(with_cache) == 0
            },
            Stage::Ready { avail } => avail & !KNOWN_FEATURES == 0,
            _ => true,
        }
    }
}

/// The setup as contracts see it.
#[verifier::ext_equal]
pub struct SetupView {
    /// The path of the socket.
    pub path: Seq<char>,
    /// The bytes of the tag.
    pub tag: Seq<u8>,
    /// The number of request queues.
    pub req_num_queues: usize,
    /// The largest size of a queue.
    pub queue_size: u16,
    /// The shared memory window and its host address.
    pub cache: Option<(ShmView, u64)>,
    /// Where the setup stands.
    pub stage: Stage,
}

impl SetupView {
    /// The call to the backend whose result the setup waits for.
    pub open spec fn request(self) -> Option<RequestView> {
        match self.stage {
            Stage::Connect => Some(
                RequestView::Connect {
                    path: self.path,
                    queue_num: (NUM_QUEUE_OFFSET + self.req_num_queues) as u64,
                },
            ),
            Stage::SetOwner => Some(RequestView::SetOwner),
            Stage::GetFeatures => Some(RequestView::GetFeatures),
            Stage::SetFeatures { avail } => Some(RequestView::SetFeatures(avail)),
            Stage::GetProtocolFeatures { avail } => Some(RequestView::GetProtocolFeatures),
            Stage::SetProtocolFeatures { avail, protocol } => Some(
                RequestView::SetProtocolFeatures(protocol),
            ),
            Stage::Ready { avail } => None,
            Stage::Failed => None,
        }
    }

    /// The setup at another stage.
    pub open spec fn at(self, stage: Stage) -> SetupView {
        SetupView { stage, ..self }
    }

    /// The setup once a reply has come in, and the error if the reply ends it.
    pub open spec fn advanced(self, reply: Reply) -> (SetupView, Result<(), FsError>) {
        match self.stage.next(self.cache is Some, reply) {
            Ok(stage) => (self.at(stage), Ok(())),
            Err(e) => (self.at(Stage::Failed), Err(e)),
        }
    }

    /// What holds of every setup.
    pub open spec fn wf(self) -> bool {
        &&& NUM_QUEUE_OFFSET + self.req_num_queues <= usize::MAX
        &&& self.stage.wf(self.cache is Some)
    }
}

/// A device that is being set up.
#[derive(Debug)]
pub struct FsSetup {
    path: String,
    tag: String,
    req_num_queues: usize,
    queue_size: u16,
    cache: Option<(VirtioSharedMemoryList, u64)>,
    stage: Stage,
}

impl View for FsSetup {
    type V = SetupView;

    closed spec fn view(&self) -> SetupView {
        SetupView {
            path: self.path@,
            tag: vstd::utf8::encode_utf8(self.tag@),
            req_num_queues: self.req_num_queues,
            queue_size: self.queue_size,
            cache: cache_view(self.cache),
            stage: self.stage,
        }
    }
}

impl FsSetup {
    /// The setup is in a state that its operations can leave it in.
    pub open spec fn inv(self) -> bool {
        self@.wf()
    }

    /// A setup before its first call.
    pub(crate) fn start(
        path: &str,
        tag: &str,
        req_num_queues: usize,
        queue_size: u16,
        cache: Option<(VirtioSharedMemoryList, u64)>,
    ) -> (setup: FsSetup)
        requires
            NUM_QUEUE_OFFSET + req_num_queues <= usize::MAX,
        ensures
            setup.inv(),
            setup@ == (SetupView {
                path: path@,
                tag: vstd::utf8::encode_utf8(tag@),
                req_num_queues,
                queue_size,
                cache: cache_view(cache),
                stage: Stage::Connect,
            }),
    {
        FsSetup {
            path: path.to_owned(),
            tag: tag.to_owned(),
            req_num_queues,
            queue_size,
            cache,
            stage: Stage::Connect,
        }
    }

    /// The call to the backend that the setup has to make next; none once
    /// everything has been agreed on, or a call has failed.
    pub fn request(&self) -> (request: Option<Request>)
        requires
            self.inv(),
        ensures
            match request {
                Some(r) => self@.request() == Some(r@),
                None => self@.request() is None,
            },
    {
        match self.stage {
            Stage::Connect => {
                let num_queues: usize = NUM_QUEUE_OFFSET + self.req_num_queues;
                Some(
                    Request::Connect {
                        path: self.path.as_str().to_owned(),
                        queue_num: num_queues as u64,
                    },
                )
            },
            Stage::SetOwner => Some(Request::SetOwner),
            Stage::GetFeatures => Some(Request::GetFeatures),
            Stage::SetFeatures { avail } => Some(Request::SetFeatures(avail)),
            Stage::GetProtocolFeatures { .. } => Some(Request::GetProtocolFeatures),
            Stage::SetProtocolFeatures { protocol, .. } => Some(
                Request::SetProtocolFeatures(protocol),
            ),
            Stage::Ready { .. } => None,
            Stage::Failed => None,
        }
    }

    /// The features that the device knows.
    fn known_features() -> (features: u64)
        ensures
            features == KNOWN_FEATURES,
    {
        let protocol_features: u64 = host::protocol_features();
        assert((1u64 << 32) | 0x4000_0000u64 == 0x1_4000_0000u64) by (bit_vector);
        (1u64 << VIRTIO_F_VERSION_1) | protocol_features
    }

    /// The protocol features that the device knows.
    fn known_protocol(&self) -> (features: u64)
        ensures
            features == known_protocol_features(self@.cache is Some),
    {
        assert(0x1u64 | 0x8 | 0x20 | 0x400 == 0x429) by (bit_vector);
        assert(0x1u64 | 0x8 == 0x9) by (bit_vector);
        if self.cache.is_some() {
            host::mq() | host::reply_ack() | host::slave_req() | host::slave_send_fd()
        } else {
            host::mq() | host::reply_ack()
        }
    }

    /// The stage to which a reply leads, or the error that ends the setup.
    fn next_stage(&self, reply: Reply) -> (next: Result<Stage, FsError>)
        requires
            self.inv(),
        ensures
            next == self@.stage.next(self@.cache is Some, reply),
            next matches Ok(stage) ==> stage.wf(self@.cache is Some),
    {
        match (self.stage, reply) {
            (Stage::Connect, Reply::Done) => Ok(Stage::SetOwner),
            (Stage::Connect, Reply::Failed(e)) => Err(FsError::VhostUserCreateMaster(e)),
            (Stage::SetOwner, Reply::Done) => Ok(Stage::GetFeatures),
            (Stage::SetOwner, Reply::Failed(e)) => Err(FsError::VhostUserSetOwner(e)),
            (Stage::GetFeatures, Reply::Value(backend_features)) => {
                let avail: u64 = Self::known_features() & backend_features;
                assert((0x1_4000_0000 & backend_features) & !0x1_4000_0000u64 == 0) by (bit_vector);
                Ok(Stage::SetFeatures { avail })
            },
            (Stage::GetFeatures, Reply::Failed(e)) => Err(FsError::VhostUserGetFeatures(e)),
            (Stage::SetFeatures { avail }, Reply::Done) => {
                if avail & host::protocol_features() != 0 {
                    Ok(Stage::GetProtocolFeatures { avail })
                } else {
                    Ok(Stage::Ready { avail })
                }
            },
            (Stage::SetFeatures { .. }, Reply::Failed(e)) => Err(FsError::VhostUserSetFeatures(e)),
            (Stage::GetProtocolFeatures { avail }, Reply::Value(backend_protocol)) => {
                let known: u64 = self.known_protocol();
                let protocol: u64 = backend_protocol & known;
                assert(protocol & !known == 0) by (bit_vector)
                    requires
                        protocol == backend_protocol & known,
                ;
                Ok(Stage::SetProtocolFeatures { avail, protocol })
            },
            (Stage::GetProtocolFeatures { .. }, Reply::Failed(e)) => Err(
                FsError::VhostUserGetProtocolFeatures(e),
            ),
            (Stage::SetProtocolFeatures { avail, .. }, Reply::Done) => Ok(Stage::Ready { avail }),
            (Stage::SetProtocolFeatures { .. }, Reply::Failed(e)) => Err(
                FsError::VhostUserSetProtocolFeatures(e),
            ),
            (stage, _) => Ok(stage),
        }
    }

    /// Takes the result of the awaited call. After an error the setup has ended:
    /// it makes no further call.
    pub fn reply(&mut self, reply: Reply) -> (result: Result<(), FsError>)
        requires
            old(self).inv(),
        ensures
            final(self).inv(),
            (final(self)@, result) == old(self)@.advanced(reply),
    {
        match self.next_stage(reply) {
            Ok(stage) => {
                self.stage = stage;
                Ok(())
            },
            Err(e) => {
                self.stage = Stage::Failed;
                Err(e)
            },
        }
    }

    /// The device, once everything has been agreed on.
    pub fn finish(self) -> (fs: Fs)
        requires
            self.inv(),
            self@.stage is Ready,
            2 * (NUM_QUEUE_OFFSET + self@.req_num_queues) <= isize::MAX,
        ensures
            fs@ == FsView::built(
                self@.tag,
                self@.req_num_queues,
                self@.queue_size,
                self@.cache,
                self@.stage->Ready_avail,
            ),
            fs@.wf(),
    {
        let avail: u64 = match self.stage {
            Stage::Ready { avail } => avail,
            _ => 0,
        };
        Fs::build(self.tag.as_str(), self.req_num_queues, self.queue_size, self.cache, avail)
    }
}

/// With a backend that has protocol features and answers every call, the setup
/// makes six calls, each once and in this order, and agrees on the features that
/// both sides have.
pub proof fn law_setup_with_protocol_features(setup: SetupView, features: u64, protocol: u64)
    requires
        setup.stage == Stage::Connect,
        features & PROTOCOL_FEATURES != 0,
    ensures
        ({
            let avail = KNOWN_FEATURES & features;
            let common = protocol & known_protocol_features(setup.cache is Some);
            let owner = SetupView { stage: Stage::SetOwner, ..setup };
            let get = SetupView { stage: Stage::GetFeatures, ..setup };
            let set = SetupView { stage: Stage::SetFeatures { avail }, ..setup };
            let get_protocol = SetupView { stage: Stage::GetProtocolFeatures { avail }, ..setup };
            let set_protocol = SetupView {
                stage: Stage::SetProtocolFeatures { avail, protocol: common },
                ..setup
            };
            let ready = SetupView { stage: Stage::Ready { avail }, ..setup };
            &&& setup.request() == Some(
                RequestView::Connect {
                    path: setup.path,
                    queue_num: (NUM_QUEUE_OFFSET + setup.req_num_queues) as u64,
                },
            )
            &&& setup.advanced(Reply::Done) == (owner, Ok::<(), FsError>(()))
            &&& owner.request() == Some(RequestView::SetOwner)
            &&& owner.advanced(Reply::Done) == (get, Ok::<(), FsError>(()))
            &&& get.request() == Some(RequestView::GetFeatures)
            &&& get.advanced(Reply::Value(features)) == (set, Ok::<(), FsError>(()))
            &&& set.request() == Some(RequestView::SetFeatures(avail))
            &&& set.advanced(Reply::Done) == (get_protocol, Ok::<(), FsError>(()))
            &&& get_protocol.request() == Some(RequestView::GetProtocolFeatures)
            &&& get_protocol.advanced(Reply::Value(protocol)) == (set_protocol, Ok::<(), FsError>(()))
            &&& set_protocol.request() == Some(RequestView::SetProtocolFeatures(common))
            &&& set_protocol.advanced(Reply::Done) == (ready, Ok::<(), FsError>(()))
            &&& ready.request() is None
        }),
{
    assert(features & 0x4000_0000 != 0 ==> (0x1_4000_0000 & features) & 0x4000_0000 != 0)
        by (bit_vector);
}

/// A backend without protocol features is not asked for any: the setup is ready
/// once the features have been set, and the device takes no requests of the
/// daemon.
pub proof fn law_setup_without_protocol_features(setup: SetupView, features: u64)
    requires
        setup.stage == Stage::GetFeatures,
        features & PROTOCOL_FEATURES == 0,
    ensures
        ({
            let avail = KNOWN_FEATURES & features;
            let set = SetupView { stage: Stage::SetFeatures { avail }, ..setup };
            let ready = SetupView { stage: Stage::Ready { avail }, ..setup };
            let fs = FsView::built(
                setup.tag,
                setup.req_num_queues,
                setup.queue_size,
                setup.cache,
                avail,
            );
            &&& setup.advanced(Reply::Value(features)) == (set, Ok::<(), FsError>(()))
            &&& set.request() == Some(RequestView::SetFeatures(avail))
            &&& set.advanced(Reply::Done) == (ready, Ok::<(), FsError>(()))
            &&& ready.request() is None
            &&& fs.acked_features == 0
            &&& fs.slave_handler() is None
        }),
{
    assert(features & 0x4000_0000 == 0 ==> (0x1_4000_0000 & features) & 0x4000_0000 == 0)
        by (bit_vector);
}

/// The features that are agreed on are exactly those that both sides have.
pub proof fn law_agreed_features_are_common(features: u64, protocol: u64, with_cache: bool)
    ensures
        ({
            let avail = KNOWN_FEATURES & features;
            let known = known_protocol_features(with_cache);
            let common = protocol & known;
            &&& avail & !features == 0
            &&& avail & !KNOWN_FEATURES == 0
            &&& (features & KNOWN_FEATURES) & !avail == 0
            &&& common & !protocol == 0
            &&& common & !known == 0
            &&& (protocol & known) & !common == 0
        }),
{
    let known = known_protocol_features(with_cache);
    assert(forall|a: u64, b: u64| #![trigger a & b]
        (a & b) & !a == 0 && (a & b) & !b == 0 && (a & b) & !(a & b) == 0) by (bit_vector);
    assert(features & KNOWN_FEATURES == KNOWN_FEATURES & features) by (bit_vector);
    assert((KNOWN_FEATURES & features) & !features == 0);
    assert((protocol & known) & !protocol == 0);
}

/// Only a device with a window asks for requests of the daemon: without a
/// window the protocol features for them are never set.
pub proof fn law_no_slave_requests_without_cache(protocol: u64)
    ensures
        (protocol & known_protocol_features(false)) & SLAVE_REQ == 0,
        (protocol & known_protocol_features(false)) & SLAVE_SEND_FD == 0,
        known_protocol_features(true) == known_protocol_features(false) | SLAVE_REQ | SLAVE_SEND_FD,
        known_protocol_features(false) == MQ | REPLY_ACK,
{
    assert((protocol & 0x9) & 0x20 == 0 && (protocol & 0x9) & 0x400 == 0) by (bit_vector);
    assert(0x9u64 | 0x20 | 0x400 == 0x429 && 0x1u64 | 0x8 == 0x9) by (bit_vector);
}

/// A call that fails ends the setup with the error that names the call.
pub proof fn law_failed_call_ends_setup(setup: SetupView, error: vhost::Error)
    ensures
        match setup.request() {
            Some(request) => setup.advanced(Reply::Failed(error)) == (
                SetupView { stage: Stage::Failed, ..setup },
                Err::<(), FsError>(
                    match request {
                        RequestView::Connect { .. } => FsError::VhostUserCreateMaster(error),
                        RequestView::SetOwner => FsError::VhostUserSetOwner(error),
                        RequestView::GetFeatures => FsError::VhostUserGetFeatures(error),
                        RequestView::SetFeatures(_) => FsError::VhostUserSetFeatures(error),
                        RequestView::GetProtocolFeatures => FsError::VhostUserGetProtocolFeatures(
                            error,
                        ),
                        RequestView::SetProtocolFeatures(_) =>
                            FsError::VhostUserSetProtocolFeatures(error),
                    },
                ),
            ),
            None => setup.advanced(Reply::Failed(error)) == (setup, Ok::<(), FsError>(())),
        },
        (SetupView { stage: Stage::Failed, ..setup }).request() is None,
{
}

/// A setup that has ended, in agreement or in failure, stays as it is.
pub proof fn law_ended_setup_stays(setup: SetupView, reply: Reply)
    requires
        setup.request() is None,
    ensures
        setup.advanced(reply) == (setup, Ok::<(), FsError>(())),
{
}

/// The call that the setup makes at each stage: it connects to the given path
/// for one queue more than there are request queues, and sets the features and
/// protocol features of its stage.
pub proof fn law_request_at_each_stage(setup: SetupView, avail: u64, protocol: u64)
    requires
        1 + setup.req_num_queues <= usize::MAX,
    ensures
        setup.stage == Stage::Connect ==> {
            &&& setup.request() matches Some(RequestView::Connect { path, queue_num })
            &&& path == setup.path
            &&& queue_num == 1 + setup.req_num_queues
        },
        setup.stage == Stage::SetOwner ==> setup.request() == Some(RequestView::SetOwner),
        setup.stage == Stage::GetFeatures ==> setup.request() == Some(RequestView::GetFeatures),
        setup.stage == (Stage::SetFeatures { avail }) ==> setup.request() == Some(
            RequestView::SetFeatures(avail),
        ),
        setup.stage == (Stage::GetProtocolFeatures { avail }) ==> setup.request() == Some(
            RequestView::GetProtocolFeatures,
        ),
        setup.stage == (Stage::SetProtocolFeatures { avail, protocol }) ==> setup.request() == Some(
            RequestView::SetProtocolFeatures(protocol),
        ),
        setup.stage == (Stage::Ready { avail }) ==> setup.request() == None::<RequestView>,
        setup.stage == Stage::Failed ==> setup.request() == None::<RequestView>,
{
}

/// What a successful call leads to at each stage, for every answer of the
/// backend. Of its features those with the bits 30 and 32 are kept. If bit 30 is
/// kept, its protocol features with the bits 0 and 3 are kept too, and those with
/// the bits 5 and 10 if the device has a window. The setup stays the same
/// otherwise.
pub proof fn law_success_at_each_stage(
    setup: SetupView,
    features: u64,
    avail: u64,
    protocol: u64,
)
    ensures
        setup.stage == Stage::Connect ==> setup.advanced(Reply::Done) == (
            SetupView { stage: Stage::SetOwner, ..setup },
            Ok::<(), FsError>(()),
        ),
        setup.stage == Stage::SetOwner ==> setup.advanced(Reply::Done) == (
            SetupView { stage: Stage::GetFeatures, ..setup },
            Ok::<(), FsError>(()),
        ),
        setup.stage == Stage::GetFeatures ==> setup.advanced(Reply::Value(features)) == (
            SetupView {
                stage: Stage::SetFeatures { avail: 0x1_4000_0000u64 & features },
                ..setup
            },
            Ok::<(), FsError>(()),
        ),
        setup.stage == (Stage::SetFeatures { avail }) && avail & 0x4000_0000 != 0
            ==> setup.advanced(Reply::Done) == (
            SetupView { stage: Stage::GetProtocolFeatures { avail }, ..setup },
            Ok::<(), FsError>(()),
        ),
        setup.stage == (Stage::SetFeatures { avail }) && avail & 0x4000_0000 == 0
            ==> setup.advanced(Reply::Done) == (
            SetupView { stage: Stage::Ready { avail }, ..setup },
            Ok::<(), FsError>(()),
        ),
        setup.stage == (Stage::GetProtocolFeatures { avail }) && setup.cache is Some
            ==> setup.advanced(Reply::Value(features)) == (
            SetupView {
                stage: Stage::SetProtocolFeatures { avail, protocol: features & 0x429u64 },
                ..setup
            },
            Ok::<(), FsError>(()),
        ),
        setup.stage == (Stage::GetProtocolFeatures { avail }) && setup.cache is None
            ==> setup.advanced(Reply::Value(features)) == (
            SetupView {
                stage: Stage::SetProtocolFeatures { avail, protocol: features & 0x9u64 },
                ..setup
            },
            Ok::<(), FsError>(()),
        ),
        setup.stage == (Stage::SetProtocolFeatures { avail, protocol }) ==> setup.advanced(
            Reply::Done,
        ) == (SetupView { stage: Stage::Ready { avail }, ..setup }, Ok::<(), FsError>(())),
{
}

/// What a failed call leads to at each stage: the setup has ended, with the error
/// that names the call and carries the error of the backend.
pub proof fn law_failure_at_each_stage(
    setup: SetupView,
    error: vhost::Error,
    avail: u64,
    protocol: u64,
)
    ensures
        ({
            let (after, result) = setup.advanced(Reply::Failed(error));
            let failed = SetupView { stage: Stage::Failed, ..setup };
            &&& setup.stage !is Ready && setup.stage != Stage::Failed ==> after == failed
            &&& setup.stage == Stage::Connect ==> result == Err::<(), FsError>(
                FsError::VhostUserCreateMaster(error),
            )
            &&& setup.stage == Stage::SetOwner ==> result == Err::<(), FsError>(
                FsError::VhostUserSetOwner(error),
            )
            &&& setup.stage == Stage::GetFeatures ==> result == Err::<(), FsError>(
                FsError::VhostUserGetFeatures(error),
            )
            &&& setup.stage == (Stage::SetFeatures { avail }) ==> result == Err::<(), FsError>(
                FsError::VhostUserSetFeatures(error),
            )
            &&& setup.stage == (Stage::GetProtocolFeatures { avail }) ==> result == Err::<
                (),
                FsError,
            >(FsError::VhostUserGetProtocolFeatures(error))
            &&& setup.stage == (Stage::SetProtocolFeatures { avail, protocol }) ==> result == Err::<
                (),
                FsError,
            >(FsError::VhostUserSetProtocolFeatures(error))
        }),
{
}

/// A reply of the wrong sort, or one that comes after the end, changes nothing.
pub proof fn law_other_replies_change_nothing(setup: SetupView, reply: Reply)
    requires
        match setup.stage {
            Stage::Ready { .. } => true,
            Stage::Failed => true,
            Stage::GetFeatures => reply is Done,
            Stage::GetProtocolFeatures { .. } => reply is Done,
            _ => reply is Value,
        },
    ensures
        setup.advanced(reply) == (setup, Ok::<(), FsError>(())),
{
}

/// Contracts see a call to the backend with the path, the number of queues and
/// the bit masks that it has.
pub proof fn law_view_of_request_is_faithful(request: Request)
    ensures
        match request {
            Request::Connect { path, queue_num } => request@ == (RequestView::Connect {
                path: path@,
                queue_num,
            }),
            Request::SetOwner => request@ == RequestView::SetOwner,
            Request::GetFeatures => request@ == RequestView::GetFeatures,
            Request::SetFeatures(features) => request@ == RequestView::SetFeatures(features),
            Request::GetProtocolFeatures => request@ == RequestView::GetProtocolFeatures,
            Request::SetProtocolFeatures(features) => request@ == RequestView::SetProtocolFeatures(
                features,
            ),
        },
{
}

} // verus!
