//! The device that a guest sees: feature bits, queues and configuration space.
use crate::activate::Activation;
use crate::error::ActivateError;
use crate::host;
use crate::host::PROTOCOL_FEATURES;
use crate::setup::FsSetup;
use crate::setup::RequestView;
use crate::setup::SetupView;
use crate::setup::Stage;
use crate::shm::cache_view;
use crate::shm::ShmView;
use crate::shm::VirtioSharedMemoryList;
use crate::slave::SlaveReqHandler;
use vmm_sys_util::eventfd::EventFd;
use vstd::prelude::*;

verus! {

/// `vmm_sys_util::eventfd::EventFd`, carried through as an opaque value.
#[verifier::external_type_specification]
#[verifier::external_body]
pub struct ExEventFd(vmm_sys_util::eventfd::EventFd);

/// The length of the tag in the configuration space.
pub const CONFIG_SPACE_TAG_SIZE: usize = 36;

/// The length of the queue count in the configuration space.
pub const CONFIG_SPACE_NUM_QUEUES_SIZE: usize = 4;

/// The length of the configuration space.
pub const CONFIG_SPACE_SIZE: usize = CONFIG_SPACE_TAG_SIZE + CONFIG_SPACE_NUM_QUEUES_SIZE;

/// The number of queues that a device has beside its request queues.
pub const NUM_QUEUE_OFFSET: usize = 1;

/// The virtio device type of a file system device.
pub const TYPE_FS: u32 = 26;

/// The number of the feature bit of a virtio 1.0 device.
pub const VIRTIO_F_VERSION_1: u32 = 32;

/// The features that a device knows: virtio 1.0 and the protocol features of
/// vhost-user.
pub const KNOWN_FEATURES: u64 = 0x1_4000_0000;

/// The device as contracts see it.
#[verifier::ext_equal]
pub struct FsView {
    /// The largest size of each queue.
    pub queue_sizes: Seq<u16>,
    /// The features that the guest is offered.
    pub avail_features: u64,
    /// The features that have been acknowledged.
    pub acked_features: u64,
    /// The configuration space.
    pub config_space: Seq<u8>,
    /// The event that stops the worker, once the device is active.
    pub kill_evt: Option<EventFd>,
    /// The shared memory window and its host address.
    pub cache: Option<(ShmView, u64)>,
    /// Whether the backend has protocol features.
    pub slave_req_support: bool,
}

/// The little-endian byte at `index` of a number.
pub open spec fn le_byte(value: nat, index: int) -> u8 {
    if index == 0 {
        (value % 0x100) as u8
    } else if index == 1 {
        ((value / 0x100) % 0x100) as u8
    } else if index == 2 {
        ((value / 0x1_0000) % 0x100) as u8
    } else {
        ((value / 0x100_0000) % 0x100) as u8
    }
}

/// The configuration space of a new device: the bytes of the tag, cut off or
/// filled up with zeros, and the number of request queues, little-endian.
pub open spec fn config_of(tag: Seq<u8>, req_num_queues: nat) -> Seq<u8> {
    Seq::new(
        CONFIG_SPACE_SIZE as nat,
        |i: int|
            if i >= CONFIG_SPACE_TAG_SIZE {
                le_byte(req_num_queues, i - CONFIG_SPACE_TAG_SIZE)
            } else if i < tag.len() {
                tag[i]
            } else {
                0u8
            },
    )
}

/// A page of 32 feature bits; pages other than 0 and 1 are empty.
pub open spec fn feature_page(features: u64, page: u32) -> u32 {
    if page == 0 {
        (features % 0x1_0000_0000) as u32
    } else if page == 1 {
        (features / 0x1_0000_0000) as u32
    } else {
        0
    }
}

/// The feature bits that `value` stands for on a page; those of pages other
/// than 0 and 1 stand for nothing.
pub open spec fn page_features(page: u32, value: u32) -> u64 {
    if page == 0 {
        value as u64
    } else if page == 1 {
        (value * 0x1_0000_0000) as u64
    } else {
        0
    }
}

/// What a read of the configuration space at `offset` leaves in a buffer: the
/// bytes from `offset` on, as far as there are any, in front of what the buffer
/// held there.
pub open spec fn config_read(config: Seq<u8>, offset: u64, buffer: Seq<u8>) -> Seq<u8> {
    if offset + buffer.len() > u64::MAX {
        buffer
    } else {
        Seq::new(
            buffer.len(),
            |i: int|
                if offset + i < config.len() {
                    config[offset + i]
                } else {
                    buffer[i]
                },
        )
    }
}

/// The configuration space after a write at `offset`: a write that goes past
/// the end is refused.
pub open spec fn config_write(config: Seq<u8>, offset: u64, data: Seq<u8>) -> Seq<u8> {
    if offset + data.len() > config.len() {
        config
    } else {
        Seq::new(
            config.len(),
            |i: int|
                if offset <= i < offset + data.len() {
                    data[i - offset]
                } else {
                    config[i]
                },
        )
    }
}

impl FsView {
    /// What holds of every device.
    pub open spec fn wf(self) -> bool {
        &&& self.config_space.len() == CONFIG_SPACE_SIZE
        &&& self.queue_sizes.len() >= NUM_QUEUE_OFFSET
        &&& forall|i: int|
            0 <= i < self.queue_sizes.len() ==> #[trigger] self.queue_sizes[i]
                == self.queue_sizes[0]
        &&& self.avail_features & !KNOWN_FEATURES == 0
        &&& self.acked_features & !self.avail_features == 0
        &&& self.acked_features & PROTOCOL_FEATURES == self.avail_features & PROTOCOL_FEATURES
        &&& self.slave_req_support <==> self.avail_features & PROTOCOL_FEATURES != 0
    }

    /// The device that a setup yields when the features in `avail_features` were
    /// agreed on.
    pub open spec fn built(
        tag: Seq<u8>,
        req_num_queues: usize,
        queue_size: u16,
        cache: Option<(ShmView, u64)>,
        avail_features: u64,
    ) -> FsView {
        FsView {
            queue_sizes: Seq::new(
                (NUM_QUEUE_OFFSET + req_num_queues) as nat,
                |i: int| queue_size,
            ),
            avail_features,
            acked_features: avail_features & PROTOCOL_FEATURES,
            config_space: config_of(tag, req_num_queues as nat),
            kill_evt: None,
            cache,
            slave_req_support: avail_features & PROTOCOL_FEATURES != 0,
        }
    }

    /// The device after the guest has acknowledged features: those that were
    /// offered count, the others do not.
    pub open spec fn acked(self, page: u32, value: u32) -> FsView {
        FsView {
            acked_features: self.acked_features | (page_features(page, value)
                & self.avail_features),
            ..self
        }
    }

    /// The handler for requests of the daemon: there is one if the backend has
    /// protocol features and the device has a window.
    pub open spec fn slave_handler(self) -> Option<SlaveReqHandler> {
        match self.cache {
            Some((window, host_addr)) if self.slave_req_support => Some(
                SlaveReqHandler { cache_size: window.len, mmap_cache_addr: host_addr },
            ),
            _ => None,
        }
    }

    /// The device with the event that stops its worker.
    pub open spec fn armed(self, evt: EventFd) -> FsView {
        FsView { kill_evt: Some(evt), ..self }
    }

    /// The device after a write to its configuration space.
    pub open spec fn written(self, offset: u64, data: Seq<u8>) -> FsView {
        FsView { config_space: config_write(self.config_space, offset, data), ..self }
    }
}

/// A virtio-fs device.
#[derive(Debug)]
pub struct Fs {
    queue_sizes: Vec<u16>,
    avail_features: u64,
    acked_features: u64,
    config_space: Vec<u8>,
    kill_evt: Option<EventFd>,
    cache: Option<(VirtioSharedMemoryList, u64)>,
    slave_req_support: bool,
}

impl View for Fs {
    type V = FsView;

    closed spec fn view(&self) -> FsView {
        FsView {
            queue_sizes: self.queue_sizes@,
            avail_features: self.avail_features,
            acked_features: self.acked_features,
            config_space: self.config_space@,
            kill_evt: self.kill_evt,
            cache: cache_view(self.cache),
            slave_req_support: self.slave_req_support,
        }
    }
}

impl Fs {
    /// Starts the setup of a device with the backend at `path`. The device has
    /// `req_num_queues` request queues of at most `queue_size` entries, shows
    /// `tag` to the guest, and has the window `cache` if there is one.
    pub fn new(
        path: &str,
        tag: &str,
        req_num_queues: usize,
        queue_size: u16,
        cache: Option<(VirtioSharedMemoryList, u64)>,
    ) -> (setup: FsSetup)
        requires
            NUM_QUEUE_OFFSET + req_num_queues <= usize::MAX,
        ensures
            setup.inv(),
            setup@ == (SetupView {
                path: path@,
                tag: vstd::utf8::encode_utf8(tag@),
                req_num_queues,
                queue_size,
                cache: cache_view(cache),
                stage: Stage::Connect,
            }),
    {
        FsSetup::start(path, tag, req_num_queues, queue_size, cache)
    }

    /// The device for which the features in `avail_features` were agreed on.
    pub(crate) fn build(
        tag: &str,
        req_num_queues: usize,
        queue_size: u16,
        cache: Option<(VirtioSharedMemoryList, u64)>,
        avail_features: u64,
    ) -> (fs: Fs)
        requires
            2 * (NUM_QUEUE_OFFSET + req_num_queues) <= isize::MAX,
            avail_features & !KNOWN_FEATURES == 0,
        ensures
            fs@ == FsView::built(
                vstd::utf8::encode_utf8(tag@),
                req_num_queues,
                queue_size,
                cache_view(cache),
                avail_features,
            ),
            fs@.wf(),
    {
        let num_queues: usize = NUM_QUEUE_OFFSET + req_num_queues;
        let mut acked_features: u64 = 0;
        let mut slave_req_support: bool = false;
        let protocol_features: u64 = host::protocol_features();
        if avail_features & protocol_features != 0 {
            acked_features = acked_features | protocol_features;
            slave_req_support = true;
        }
        assert(acked_features == avail_features & PROTOCOL_FEATURES && acked_features
            & !avail_features == 0) by {
            assert(avail_features & 0x4000_0000 == 0 || avail_features & 0x4000_0000
                == 0x4000_0000) by (bit_vector);
            assert(0u64 | 0x4000_0000u64 == 0x4000_0000u64) by (bit_vector);
            assert((avail_features & 0x4000_0000) & !avail_features == 0) by (bit_vector);
        }
        assert(acked_features & PROTOCOL_FEATURES == avail_features & PROTOCOL_FEATURES) by {
            assert((avail_features & 0x4000_0000) & 0x4000_0000 == avail_features & 0x4000_0000)
                by (bit_vector);
        }

        // First the tag, then the number of request queues.
        let mut config_space: Vec<u8> = Vec::new();
        config_space.extend_from_slice(tag.as_bytes());
        let ghost bytes = vstd::utf8::encode_utf8(tag@);
        assert(config_space@ =~= bytes);
        config_space.resize(CONFIG_SPACE_SIZE, 0);
        assert forall|i: int| 0 <= i < CONFIG_SPACE_TAG_SIZE implies config_space@[i] == (
        if i < bytes.len() {
            bytes[i]
        } else {
            0u8
        }) by {
            if bytes.len() < CONFIG_SPACE_SIZE && i < bytes.len() {
                assert(config_space@.subrange(0, bytes.len() as int)[i] == bytes[i]);
            }
        }
        let count: u64 = req_num_queues as u64;
        config_space[CONFIG_SPACE_TAG_SIZE] = (count % 0x100) as u8;
        config_space[CONFIG_SPACE_TAG_SIZE + 1] = ((count / 0x100) % 0x100) as u8;
        config_space[CONFIG_SPACE_TAG_SIZE + 2] = ((count / 0x1_0000) % 0x100) as u8;
        config_space[CONFIG_SPACE_TAG_SIZE + 3] = ((count / 0x100_0000) % 0x100) as u8;
        assert(config_space@ =~= config_of(bytes, req_num_queues as nat));

        let queue_sizes: Vec<u16> = vec![queue_size; num_queues];
        assert(queue_sizes@ =~= Seq::new(num_queues as nat, |i: int| queue_size));
        Fs {
            queue_sizes,
            avail_features,
            acked_features,
            config_space,
            kill_evt: None,
            cache,
            slave_req_support,
        }
    }

    /// The virtio device type.
    pub fn device_type(&self) -> (device_type: u32)
        ensures
            device_type == TYPE_FS,
    {
        TYPE_FS
    }

    /// The largest size of each queue.
    pub fn queue_max_sizes(&self) -> (sizes: &[u16])
        ensures
            sizes@ == self@.queue_sizes,
    {
        self.queue_sizes.as_slice()
    }

    /// A page of the offered features.
    pub fn features(&self, page: u32) -> (bits: u32)
        ensures
            bits == feature_page(self@.avail_features, page),
    {
        let features: u64 = self.avail_features;
        match page {
            // The lower half of the features.
            0 => {
                assert(features as u32 == (features % 0x1_0000_0000) as u32) by (bit_vector);
                #[verifier::truncate]
                (features as u32)
            },
            // The upper half of the features.
            1 => {
                assert((features >> 32) as u32 == (features / 0x1_0000_0000) as u32)
                    by (bit_vector);
                (features >> 32) as u32
            },
            _ => 0,
        }
    }

    /// Acknowledges a page of features.
    pub fn ack_features(&mut self, page: u32, value: u32)
        requires
            old(self)@.wf(),
        ensures
            final(self)@ == old(self)@.acked(page, value),
            final(self)@.wf(),
    {
        let mut v: u64 = match page {
            0 => value as u64,
            1 => {
                assert((value as u64) << 32 == value * 0x1_0000_0000) by (bit_vector);
                (value as u64) << 32
            },
            _ => 0,
        };
        let ghost claimed = v;
        let avail: u64 = self.avail_features;
        let ghost acked = self.acked_features;

        // Features that were not offered do not count.
        let unrequested_features: u64 = v & !avail;
        if unrequested_features != 0 {
            v = v & !unrequested_features;
        }
        self.acked_features = self.acked_features | v;

        assert(v == claimed & avail) by {
            assert(claimed & !(claimed & !avail) == claimed & avail) by (bit_vector);
            assert(claimed & !avail == 0 ==> claimed == claimed & avail) by (bit_vector);
        }
        assert(acked & !avail == 0 ==> (acked | (claimed & avail)) & !avail == 0) by (bit_vector);
        assert(acked & 0x4000_0000 == avail & 0x4000_0000 ==> (acked | (claimed & avail))
            & 0x4000_0000 == avail & 0x4000_0000) by (bit_vector);
    }

    /// Reads the configuration space from `offset` on into `data`.
    pub fn read_config(&self, offset: u64, data: &mut [u8])
        ensures
            final(data)@ == config_read(self@.config_space, offset, old(data)@),
    {
        let config_len: u64 = self.config_space.len() as u64;
        if offset >= config_len {
            assert(data@ =~= config_read(self@.config_space, offset, data@));
            return;
        }
        if let Some(end) = offset.checked_add(data.len() as u64) {
            let stop: u64 = if end < config_len {
                end
            } else {
                config_len
            };
            let count: usize = (stop - offset) as usize;
            let start: usize = offset as usize;
            let ghost before = data@;
            for i in 0..count
                invariant
                    start == offset,
                    count <= data@.len(),
                    data@.len() == before.len(),
                    start + count <= self.config_space.len(),
                    forall|j: int| 0 <= j < i ==> data@[j] == self.config_space@[start + j],
                    forall|j: int| i <= j < data@.len() ==> data@[j] == before[j],
            {
                data[i] = self.config_space[start + i];
            }
            assert(data@ =~= config_read(self@.config_space, offset, before));
        }
    }

    /// Writes `data` to the configuration space at `offset`. A write that goes
    /// past the end is refused; any other must reach the end.
    pub fn write_config(&mut self, offset: u64, data: &[u8])
        requires
            old(self)@.wf(),
            offset + data@.len() <= u64::MAX,
            offset + data@.len() >= CONFIG_SPACE_SIZE,
        ensures
            final(self)@ == old(self)@.written(offset, data@),
            final(self)@.wf(),
    {
        let data_len: u64 = data.len() as u64;
        let config_len: u64 = self.config_space.len() as u64;
        if offset + data_len > config_len {
            return;
        }
        let ghost before = self@;
        let start: usize = offset as usize;
        for i in 0..data.len()
            invariant
                start == offset,
                start + data@.len() == self.config_space.len(),
                self.config_space@.len() == before.config_space.len(),
                self@ == (FsView { config_space: self.config_space@, ..before }),
                forall|j: int| 0 <= j < start ==> self.config_space@[j] == before.config_space[j],
                forall|j: int| 0 <= j < i ==> self.config_space@[start + j] == data@[j],
        {
            self.config_space[start + i] = data[i];
        }
        assert(self@.config_space =~= config_write(before.config_space, offset, data@));
    }

    /// The shared memory window, if there is one.
    pub fn get_shm_regions(&self) -> (regions: Option<VirtioSharedMemoryList>)
        ensures
            match self@.cache {
                Some((window, _)) => regions is Some && regions->0@ == window,
                None => regions is None,
            },
    {
        match &self.cache {
            Some((list, _)) => Some(list.clone()),
            None => None,
        }
    }

    /// The features that have been acknowledged.
    pub(crate) fn acked_features(&self) -> (features: u64)
        ensures
            features == self@.acked_features,
    {
        self.acked_features
    }

    /// The handler for requests of the daemon, if there is to be one.
    pub(crate) fn slave_req_handler(&self) -> (handler: Option<SlaveReqHandler>)
        ensures
            handler == self@.slave_handler(),
    {
        if self.slave_req_support {
            match &self.cache {
                Some((list, host_addr)) => Some(
                    SlaveReqHandler { cache_size: list.len, mmap_cache_addr: *host_addr },
                ),
                None => None,
            }
        } else {
            None
        }
    }

    /// Keeps the event that stops the worker.
    pub(crate) fn arm(&mut self, evt: EventFd)
        ensures
            final(self)@ == old(self)@.armed(evt),
    {
        self.kill_evt = Some(evt);
    }

    /// Begins the activation of the device with the queues and queue events that
    /// the guest has set up: there must be as many of each as the device has
    /// queues.
    pub fn activate(&self, num_queues: usize, num_queue_evts: usize) -> (activation: Result<
        Activation,
        ActivateError,
    >)
        ensures
            activation == if num_queues == self@.queue_sizes.len() && num_queue_evts
                == self@.queue_sizes.len() {
                Ok::<Activation, ActivateError>(Activation::KillEvent)
            } else {
                Err::<Activation, ActivateError>(ActivateError::BadActivate)
            },
    {
        if num_queues != self.queue_sizes.len() || num_queue_evts != self.queue_sizes.len() {
            return Err(ActivateError::BadActivate);
        }
        Ok(Activation::KillEvent)
    }

    /// Takes the event that stops the worker, with the value to write to it.
    pub fn take_kill_evt(&mut self) -> (signal: Option<(EventFd, u64)>)
        ensures
            signal == match old(self)@.kill_evt {
                Some(evt) => Some((evt, 1u64)),
                None => None,
            },
            final(self)@ == (FsView { kill_evt: None, ..old(self)@ }),
    {
        match self.kill_evt.take() {
            Some(evt) => Some((evt, 1)),
            None => None,
        }
    }
}

/// The two pages of a feature set together are the feature set.
pub proof fn law_pages_hold_all_features(features: u64)
    ensures
        page_features(0, feature_page(features, 0)) | page_features(1, feature_page(features, 1))
            == features,
{
    let low = features % 0x1_0000_0000;
    let high = features / 0x1_0000_0000;
    assert(low | ((high * 0x1_0000_0000) as u64) == features) by (bit_vector)
        requires
            low == features % 0x1_0000_0000,
            high == features / 0x1_0000_0000,
    ;
}

/// A guest that acknowledges everything it is offered has acknowledged exactly
/// the offered features.
pub proof fn law_offered_features_can_be_acked(fs: FsView)
    requires
        fs.wf(),
    ensures
        fs.acked(0, feature_page(fs.avail_features, 0)).acked(
            1,
            feature_page(fs.avail_features, 1),
        ).acked_features == fs.avail_features,
{
    let avail = fs.avail_features;
    let acked = fs.acked_features;
    let low = page_features(0, feature_page(avail, 0));
    let high = page_features(1, feature_page(avail, 1));
    law_pages_hold_all_features(avail);
    assert((acked | (low & avail)) | (high & avail) == avail) by (bit_vector)
        requires
            low | high == avail,
            acked & !avail == 0,
    ;
}

/// Features that were not offered, and those of an unknown page, cannot be
/// acknowledged: acknowledging nothing else changes nothing.
pub proof fn law_unoffered_features_do_not_count(fs: FsView, page: u32, value: u32)
    requires
        page_features(page, value) & fs.avail_features == 0,
    ensures
        fs.acked(page, value) == fs,
{
    let acked = fs.acked_features;
    assert(acked | 0 == acked) by (bit_vector);
}

/// An unknown page stands for no features.
pub proof fn law_unknown_page_is_empty(fs: FsView, page: u32, value: u32)
    requires
        page > 1,
    ensures
        feature_page(fs.avail_features, page) == 0,
        fs.acked(page, value) == fs,
{
    let avail = fs.avail_features;
    assert(0 & avail == 0) by (bit_vector);
    law_unoffered_features_do_not_count(fs, page, value);
}

/// An acknowledged feature stays acknowledged, acknowledging it again changes
/// nothing, and the order of acknowledgements does not matter.
pub proof fn law_acks_accumulate(fs: FsView, page1: u32, value1: u32, page2: u32, value2: u32)
    ensures
        fs.acked_features & !fs.acked(page1, value1).acked_features == 0,
        fs.acked(page1, value1).acked(page1, value1) == fs.acked(page1, value1),
        fs.acked(page1, value1).acked(page2, value2) == fs.acked(page2, value2).acked(
            page1,
            value1,
        ),
{
    let acked = fs.acked_features;
    let a = page_features(page1, value1) & fs.avail_features;
    let b = page_features(page2, value2) & fs.avail_features;
    assert(acked & !(acked | a) == 0) by (bit_vector);
    assert((acked | a) | a == acked | a) by (bit_vector);
    assert((acked | a) | b == (acked | b) | a) by (bit_vector);
}

/// A read gives back what a write that was not refused has put there.
pub proof fn law_read_gives_back_write(
    config: Seq<u8>,
    offset: u64,
    data: Seq<u8>,
    buffer: Seq<u8>,
)
    requires
        config.len() == CONFIG_SPACE_SIZE,
        offset + data.len() <= config.len(),
        buffer.len() == data.len(),
    ensures
        config_read(config_write(config, offset, data), offset, buffer) == data,
{
    assert(config_read(config_write(config, offset, data), offset, buffer) =~= data);
}

/// A write leaves what lies before it as it was; a refused write leaves
/// everything as it was.
pub proof fn law_write_leaves_the_rest(config: Seq<u8>, offset: u64, data: Seq<u8>)
    ensures
        config_write(config, offset, data).len() == config.len(),
        forall|i: int|
            0 <= i < config.len() && !(offset <= i < offset + data.len()) ==> #[trigger]
            config_write(config, offset, data)[i] == config[i],
        offset + data.len() > config.len() ==> config_write(config, offset, data) == config,
{
}

/// A read changes nothing of a buffer but the bytes for which the configuration
/// space has a value; a read from past the end changes nothing.
pub proof fn law_read_stays_in_bounds(config: Seq<u8>, offset: u64, buffer: Seq<u8>)
    ensures
        config_read(config, offset, buffer).len() == buffer.len(),
        forall|i: int|
            0 <= i < buffer.len() && offset + i >= config.len() ==> #[trigger] config_read(
                config,
                offset,
                buffer,
            )[i] == buffer[i],
        offset >= config.len() ==> config_read(config, offset, buffer) == buffer,
        offset + buffer.len() > u64::MAX ==> config_read(config, offset, buffer) == buffer,
{
    if offset >= config.len() {
        assert(config_read(config, offset, buffer) =~= buffer);
    }
}

/// Reading in two pieces gives what reading at once gives.
pub proof fn law_read_in_pieces(
    config: Seq<u8>,
    offset: u64,
    first: Seq<u8>,
    second: Seq<u8>,
)
    requires
        offset + first.len() + second.len() <= u64::MAX,
    ensures
        config_read(config, offset, first + second) == config_read(config, offset, first)
            + config_read(config, (offset + first.len()) as u64, second),
{
    assert(config_read(config, offset, first + second) =~= config_read(config, offset, first)
        + config_read(config, (offset + first.len()) as u64, second));
}

/// The guest reads the tag at the start of the configuration space of a new
/// device: its first bytes, followed by zeros if it is short.
pub proof fn law_guest_reads_tag(tag: Seq<u8>, req_num_queues: nat, buffer: Seq<u8>)
    requires
        buffer.len() == CONFIG_SPACE_TAG_SIZE,
    ensures
        config_read(config_of(tag, req_num_queues), 0, buffer) == if tag.len()
            >= CONFIG_SPACE_TAG_SIZE {
            tag.take(CONFIG_SPACE_TAG_SIZE as int)
        } else {
            tag + Seq::new((CONFIG_SPACE_TAG_SIZE - tag.len()) as nat, |i: int| 0u8)
        },
{
    let read = config_read(config_of(tag, req_num_queues), 0, buffer);
    if tag.len() >= CONFIG_SPACE_TAG_SIZE {
        assert(read =~= tag.take(CONFIG_SPACE_TAG_SIZE as int));
    } else {
        assert(read =~= tag + Seq::new((CONFIG_SPACE_TAG_SIZE - tag.len()) as nat, |i: int| 0u8));
    }
}

/// Four little-endian bytes hold a number up to its 32nd bit.
proof fn lemma_le_bytes(value: nat)
    ensures
        le_byte(value, 0) + le_byte(value, 1) * 0x100 + le_byte(value, 2) * 0x1_0000 + le_byte(
            value,
            3,
        ) * 0x100_0000 == value % 0x1_0000_0000,
{
    let n = value as int;
    let n1 = n / 0x100;
    let n2 = n1 / 0x100;
    let n3 = n2 / 0x100;
    let n4 = n3 / 0x100;
    assert(n / 0x1_0000 == n2);
    assert(n / 0x100_0000 == n3);
    let low = n % 0x100 + (n1 % 0x100) * 0x100 + (n2 % 0x100) * 0x1_0000 + (n3 % 0x100)
        * 0x100_0000;
    assert(n == n4 * 0x1_0000_0000 + low);
    assert(0 <= low < 0x1_0000_0000);
    assert(n % 0x1_0000_0000 == low) by {
        vstd::arithmetic::div_mod::lemma_fundamental_div_mod_converse(n, 0x1_0000_0000, n4, low);
    }
}

/// The guest reads the number of request queues of a new device after the tag,
/// as a little-endian 32-bit number.
pub proof fn law_guest_reads_queue_count(tag: Seq<u8>, req_num_queues: nat, buffer: Seq<u8>)
    requires
        buffer.len() == CONFIG_SPACE_NUM_QUEUES_SIZE,
    ensures
        ({
            let read = config_read(
                config_of(tag, req_num_queues),
                CONFIG_SPACE_TAG_SIZE as u64,
                buffer,
            );
            read[0] + read[1] * 0x100 + read[2] * 0x1_0000 + read[3] * 0x100_0000
                == req_num_queues % 0x1_0000_0000
        }),
{
    lemma_le_bytes(req_num_queues);
    let config = config_of(tag, req_num_queues);
    let read = config_read(config, CONFIG_SPACE_TAG_SIZE as u64, buffer);
    assert(forall|k: int| 0 <= k < 4 ==> #[trigger] read[k] == le_byte(req_num_queues, k));
}

/// Acknowledging features and writing to the configuration space do not affect
/// each other.
pub proof fn law_features_and_config_are_independent(
    fs: FsView,
    page: u32,
    value: u32,
    offset: u64,
    data: Seq<u8>,
)
    ensures
        fs.acked(page, value).config_space == fs.config_space,
        fs.written(offset, data).acked_features == fs.acked_features,
        fs.written(offset, data).avail_features == fs.avail_features,
        fs.acked(page, value).written(offset, data) == fs.written(offset, data).acked(page, value),
{
}

/// A new device has one queue more than it has request queues, all of the size
/// that was asked for; its configuration space has 40 bytes and holds the tag and
/// the number of request queues; it offers what was agreed on, has acknowledged
/// the protocol features alone if they were agreed on, keeps the window it was
/// given, and has no kill event.
pub proof fn law_new_device(
    tag: Seq<u8>,
    req_num_queues: usize,
    queue_size: u16,
    cache: Option<(ShmView, u64)>,
    avail_features: u64,
)
    ensures
        ({
            let fs = FsView::built(tag, req_num_queues, queue_size, cache, avail_features);
            let config = fs.config_space;
            &&& fs.queue_sizes.len() == 1 + req_num_queues
            &&& forall|i: int|
                0 <= i < 1 + req_num_queues ==> #[trigger] fs.queue_sizes[i] == queue_size
            &&& fs.avail_features == avail_features
            &&& fs.acked_features == if avail_features & 0x4000_0000 != 0 {
                0x4000_0000u64
            } else {
                0u64
            }
            &&& fs.slave_req_support <==> avail_features & 0x4000_0000 != 0
            &&& fs.cache == cache
            &&& fs.kill_evt is None
            &&& config.len() == 40
            &&& forall|i: int| 0 <= i < 36 && i < tag.len() ==> #[trigger] config[i] == tag[i]
            &&& forall|i: int| 0 <= i < 36 && i >= tag.len() ==> #[trigger] config[i] == 0
            &&& config[36] + config[37] * 0x100 + config[38] * 0x1_0000 + config[39] * 0x100_0000
                == req_num_queues as int % 0x1_0000_0000
        }),
{
    lemma_le_bytes(req_num_queues as nat);
    assert(avail_features & 0x4000_0000 == 0 || avail_features & 0x4000_0000 == 0x4000_0000)
        by (bit_vector);
}

/// A new device has as many queues as its setup connects for, and one more than
/// the number that the guest finds in the configuration space.
pub proof fn law_queues_match_connection(setup: SetupView, queue_num: u64, avail_features: u64)
    requires
        1 + setup.req_num_queues <= usize::MAX,
        setup.stage == Stage::Connect,
        setup.request() matches Some(RequestView::Connect { queue_num: n, .. }) && n == queue_num,
    ensures
        ({
            let fs = FsView::built(
                setup.tag,
                setup.req_num_queues,
                setup.queue_size,
                setup.cache,
                avail_features,
            );
            let config = fs.config_space;
            &&& fs.queue_sizes.len() == queue_num
            &&& fs.queue_sizes.len() <= 0x1_0000_0000 ==> fs.queue_sizes.len() == 1 + config[36]
                + config[37] * 0x100 + config[38] * 0x1_0000 + config[39] * 0x100_0000
        }),
{
    law_new_device(
        setup.tag,
        setup.req_num_queues,
        setup.queue_size,
        setup.cache,
        avail_features,
    );
}

/// Page 0 of a feature set is its lower half and page 1 its upper half, in both
/// directions; no other page holds anything.
pub proof fn law_pages_are_halves(features: u64, page: u32, value: u32)
    ensures
        feature_page(features, 0) + feature_page(features, 1) * 0x1_0000_0000 == features,
        page_features(0, value) == value,
        page_features(1, value) == value * 0x1_0000_0000,
        page > 1 ==> feature_page(features, page) == 0,
        page > 1 ==> page_features(page, value) == 0,
{
}

/// After an acknowledgement a feature counts as acknowledged exactly if it did
/// before, or if it was offered and its bit is set in the value, on the page
/// that it belongs to. Nothing else of the device changes.
pub proof fn law_ack_bit_by_bit(fs: FsView, page: u32, value: u32, bit: u64)
    requires
        bit < 64,
    ensures
        (fs.acked(page, value).acked_features >> bit) & 1 == 1 <==> {
            ||| (fs.acked_features >> bit) & 1 == 1
            ||| {
                &&& (fs.avail_features >> bit) & 1 == 1
                &&& page == bit / 32
                &&& (value >> ((bit % 32) as u32)) & 1 == 1
            }
        },
        fs.acked(page, value) == (FsView {
            acked_features: fs.acked(page, value).acked_features,
            ..fs
        }),
{
    let acked = fs.acked_features;
    let avail = fs.avail_features;
    let claimed = page_features(page, value);
    assert((((acked | (claimed & avail)) >> bit) & 1u64 == 1u64) == ((acked >> bit) & 1u64 == 1u64
        || ((claimed >> bit) & 1u64 == 1u64 && (avail >> bit) & 1u64 == 1u64))) by (bit_vector);
    if page == 0 {
        assert((((value as u64) >> bit) & 1u64 == 1u64) == (bit < 32u64 && (value >> ((bit
            % 32u64) as u32)) & 1u32 == 1u32)) by (bit_vector)
            requires
                bit < 64u64,
        ;
    } else if page == 1 {
        assert(((((value * 0x1_0000_0000u64) as u64) >> bit) & 1u64 == 1u64) == (bit >= 32u64 && (
        value >> ((bit % 32u64) as u32)) & 1u32 == 1u32)) by (bit_vector)
            requires
                bit < 64u64,
        ;
    } else {
        assert((0u64 >> bit) & 1u64 == 0u64) by (bit_vector);
    }
}

/// A read puts the byte at `offset + i` of the configuration space at `i` of the
/// buffer, wherever there is such a byte.
pub proof fn law_read_byte_by_byte(config: Seq<u8>, offset: u64, buffer: Seq<u8>, i: int)
    requires
        offset + buffer.len() <= u64::MAX,
        0 <= i < buffer.len(),
    ensures
        config_read(config, offset, buffer).len() == buffer.len(),
        config_read(config, offset, buffer)[i] == if offset + i < config.len() {
            config[offset + i]
        } else {
            buffer[i]
        },
{
}

/// A write that fits puts the byte at `i` of the data at `offset + i` of the
/// configuration space and changes no other byte; one that does not fit changes
/// nothing. Nothing else of the device changes.
pub proof fn law_write_byte_by_byte(fs: FsView, offset: u64, data: Seq<u8>, i: int)
    requires
        0 <= i < fs.config_space.len(),
    ensures
        ({
            let after = fs.written(offset, data);
            &&& after == (FsView { config_space: after.config_space, ..fs })
            &&& after.config_space.len() == fs.config_space.len()
            &&& after.config_space[i] == if offset + data.len() <= fs.config_space.len() && offset
                <= i < offset + data.len() {
                data[i - offset]
            } else {
                fs.config_space[i]
            }
        }),
{
}

/// A device that is given a kill event has this event, whatever it had before
/// and whatever else holds of it, and nothing else of it changes.
pub proof fn law_armed_device_has_event(fs: FsView, evt: EventFd)
    ensures
        fs.armed(evt) == (FsView { kill_evt: Some(evt), ..fs }),
{
}

/// A device has a handler for requests of the daemon exactly if its backend has
/// protocol features and it has a window; the handler knows the length of the
/// window and its host address.
pub proof fn law_handler_knows_window(fs: FsView, window: ShmView, host_addr: u64)
    ensures
        !fs.slave_req_support ==> fs.slave_handler() is None,
        fs.cache is None ==> fs.slave_handler() is None,
        fs.slave_req_support && fs.cache == Some((window, host_addr)) ==> {
            &&& fs.slave_handler() matches Some(handler)
            &&& handler.cache_size == window.len
            &&& handler.mmap_cache_addr == host_addr
        },
{
}

} // verus!
