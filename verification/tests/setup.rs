use vhost::vhost_user::message::VhostUserProtocolFeatures;
use vhost::vhost_user::message::VhostUserVirtioFeatures;
use virtio_fs::device::Fs;
use virtio_fs::error::FsError;
use virtio_fs::setup::FsSetup;
use virtio_fs::setup::Reply;
use virtio_fs::setup::Request;
use virtio_fs::shm::VirtioSharedMemory;
use virtio_fs::shm::VirtioSharedMemoryList;

const VERSION_1: u64 = 0x1_0000_0000;
const PROTOCOL: u64 = 0x4000_0000;

fn window() -> (VirtioSharedMemoryList, u64) {
    let list = VirtioSharedMemoryList {
        addr: 0xc000_0000,
        len: 0x20_0000,
        region_list: vec![VirtioSharedMemory { offset: 0, len: 0x20_0000 }],
    };
    (list, 0x7f00_0000_0000)
}

fn start(cache: bool) -> FsSetup {
    let cache = if cache { Some(window()) } else { None };
    Fs::new("/run/virtiofsd.sock", "myfs", 2, 128, cache)
}

fn expect(setup: &mut FsSetup, request: Request, reply: Reply) {
    assert_eq!(setup.request(), Some(request));
    assert!(setup.reply(reply).is_ok());
}

fn connect() -> Request {
    Request::Connect { path: String::from("/run/virtiofsd.sock"), queue_num: 3 }
}

fn to_get_protocol(cache: bool) -> FsSetup {
    let mut setup = start(cache);
    expect(&mut setup, connect(), Reply::Done);
    expect(&mut setup, Request::SetOwner, Reply::Done);
    expect(&mut setup, Request::GetFeatures, Reply::Value(u64::MAX));
    expect(&mut setup, Request::SetFeatures(VERSION_1 | PROTOCOL), Reply::Done);
    setup
}

#[test]
fn setup_without_window_masks_protocol_features() {
    let mut setup = to_get_protocol(false);
    expect(&mut setup, Request::GetProtocolFeatures, Reply::Value(u64::MAX));
    expect(&mut setup, Request::SetProtocolFeatures(0x9), Reply::Done);
    assert_eq!(setup.request(), None);
    let fs = setup.finish();
    assert_eq!(fs.features(0), 0x4000_0000);
    assert_eq!(fs.features(1), 1);
    assert_eq!(fs.queue_max_sizes(), &[128u16, 128, 128][..]);
    assert!(fs.get_shm_regions().is_none());
}

#[test]
fn setup_with_window_asks_for_slave_requests() {
    let mut setup = to_get_protocol(true);
    expect(&mut setup, Request::GetProtocolFeatures, Reply::Value(u64::MAX));
    expect(&mut setup, Request::SetProtocolFeatures(0x429), Reply::Done);
    assert_eq!(setup.request(), None);
    let fs = setup.finish();
    assert_eq!(fs.get_shm_regions(), Some(window().0));
}

#[test]
fn setup_sets_only_common_protocol_features() {
    let mut setup = to_get_protocol(true);
    expect(&mut setup, Request::GetProtocolFeatures, Reply::Value(0x23));
    expect(&mut setup, Request::SetProtocolFeatures(0x21), Reply::Done);
    assert_eq!(setup.request(), None);
}

#[test]
fn setup_skips_protocol_features_that_the_backend_lacks() {
    let mut setup = start(true);
    expect(&mut setup, connect(), Reply::Done);
    expect(&mut setup, Request::SetOwner, Reply::Done);
    expect(&mut setup, Request::GetFeatures, Reply::Value(VERSION_1 | 0x7));
    expect(&mut setup, Request::SetFeatures(VERSION_1), Reply::Done);
    assert_eq!(setup.request(), None);
    let fs = setup.finish();
    assert_eq!(fs.features(0), 0);
    assert_eq!(fs.features(1), 1);
}

#[test]
fn a_reply_that_answers_nothing_is_passed_over() {
    let mut setup = start(false);
    assert!(setup.reply(Reply::Value(7)).is_ok());
    assert_eq!(setup.request(), Some(connect()));
}

fn failed() -> Reply {
    Reply::Failed(vhost::Error::InvalidQueue)
}

/// A setup for which the first `calls` calls have succeeded.
fn after(calls: usize) -> FsSetup {
    let mut setup = start(false);
    let replies = vec![
        Reply::Done,
        Reply::Done,
        Reply::Value(PROTOCOL),
        Reply::Done,
        Reply::Value(0x8),
    ];
    for reply in replies.into_iter().take(calls) {
        assert!(setup.reply(reply).is_ok());
    }
    setup
}

/// Lets the call after the first `calls` ones fail; the setup has then ended.
fn fail(calls: usize) -> FsError {
    let mut setup = after(calls);
    let error = setup.reply(failed()).unwrap_err();
    assert_eq!(setup.request(), None);
    assert!(setup.reply(Reply::Done).is_ok());
    assert!(setup.reply(Reply::Value(PROTOCOL)).is_ok());
    assert!(setup.reply(failed()).is_ok());
    assert_eq!(setup.request(), None);
    error
}

#[test]
fn each_failed_call_is_named_and_ends_the_setup() {
    assert_eq!(after(0).request(), Some(connect()));
    assert!(matches!(fail(0), FsError::VhostUserCreateMaster(vhost::Error::InvalidQueue)));
    assert_eq!(after(1).request(), Some(Request::SetOwner));
    assert!(matches!(fail(1), FsError::VhostUserSetOwner(vhost::Error::InvalidQueue)));
    assert_eq!(after(2).request(), Some(Request::GetFeatures));
    assert!(matches!(fail(2), FsError::VhostUserGetFeatures(vhost::Error::InvalidQueue)));
    assert_eq!(after(3).request(), Some(Request::SetFeatures(PROTOCOL)));
    assert!(matches!(fail(3), FsError::VhostUserSetFeatures(vhost::Error::InvalidQueue)));
    assert_eq!(after(4).request(), Some(Request::GetProtocolFeatures));
    assert!(matches!(fail(4), FsError::VhostUserGetProtocolFeatures(vhost::Error::InvalidQueue)));
    assert_eq!(after(5).request(), Some(Request::SetProtocolFeatures(0x8)));
    assert!(matches!(fail(5), FsError::VhostUserSetProtocolFeatures(vhost::Error::InvalidQueue)));
}

#[test]
fn a_ready_setup_stays_ready() {
    let mut setup = after(5);
    assert!(setup.reply(Reply::Done).is_ok());
    assert!(setup.reply(failed()).is_ok());
    assert_eq!(setup.request(), None);
    assert_eq!(setup.finish().features(0), 0x4000_0000);
}

#[test]
fn feature_bits_are_those_of_the_vhost_crate() {
    let with_window = VhostUserProtocolFeatures::MQ
        | VhostUserProtocolFeatures::REPLY_ACK
        | VhostUserProtocolFeatures::SLAVE_REQ
        | VhostUserProtocolFeatures::SLAVE_SEND_FD;
    let without_window = VhostUserProtocolFeatures::MQ | VhostUserProtocolFeatures::REPLY_ACK;
    assert_eq!(VhostUserVirtioFeatures::PROTOCOL_FEATURES.bits(), PROTOCOL);
    let mut setup = to_get_protocol(true);
    assert!(setup.reply(Reply::Value(VhostUserProtocolFeatures::all().bits())).is_ok());
    assert_eq!(setup.request(), Some(Request::SetProtocolFeatures(with_window.bits())));
    let mut setup = to_get_protocol(false);
    assert!(setup.reply(Reply::Value(VhostUserProtocolFeatures::all().bits())).is_ok());
    assert_eq!(setup.request(), Some(Request::SetProtocolFeatures(without_window.bits())));
}
