use virtio_fs::activate::ActivateCall;
use virtio_fs::activate::ActivateReply;
use virtio_fs::activate::Activation;
use virtio_fs::device::Fs;
use virtio_fs::error::ActivateError;
use virtio_fs::error::FsError;
use virtio_fs::setup::Reply;
use virtio_fs::setup::Request;
use virtio_fs::shm::VirtioSharedMemoryList;
use virtio_fs::slave::SlaveReqHandler;
use vmm_sys_util::eventfd::EventFd;

fn device(tag: &str, req_num_queues: usize, features: u64, cache: bool) -> Fs {
    let cache = if cache {
        let list = VirtioSharedMemoryList { addr: 0x1000, len: 0x8000, region_list: vec![] };
        Some((list, 0x7000))
    } else {
        None
    };
    let mut setup = Fs::new("/s", tag, req_num_queues, 1024, cache);
    while let Some(request) = setup.request() {
        let reply = match request {
            Request::GetFeatures => Reply::Value(features),
            Request::GetProtocolFeatures => Reply::Value(0xffff),
            _ => Reply::Done,
        };
        assert!(setup.reply(reply).is_ok());
    }
    setup.finish()
}

fn acked(fs: &Fs) -> u64 {
    match Activation::VhostUser.call(fs) {
        Some(ActivateCall::SetupVhostUser { acked_features }) => acked_features,
        _ => panic!("no backend setup"),
    }
}

#[test]
fn device_type_is_file_system() {
    assert_eq!(device("t", 1, u64::MAX, false).device_type(), 26);
}

#[test]
fn queues_are_request_queues_and_one_more() {
    let fs = device("t", 0, u64::MAX, false);
    assert_eq!(fs.queue_max_sizes(), &[1024u16][..]);
}

#[test]
fn feature_pages() {
    let fs = device("t", 1, u64::MAX, false);
    assert_eq!(fs.features(0), 0x4000_0000);
    assert_eq!(fs.features(1), 0x1);
    assert_eq!(fs.features(2), 0);
    let both = u64::from(fs.features(0)) | u64::from(fs.features(1)) << 32;
    assert_eq!(both, 0x1_4000_0000);
}

#[test]
fn acknowledging_all_offered_features() {
    let mut fs = device("t", 1, u64::MAX, false);
    assert_eq!(acked(&fs), 0x4000_0000);
    fs.ack_features(0, fs.features(0));
    fs.ack_features(1, fs.features(1));
    assert_eq!(acked(&fs), 0x1_4000_0000);
}

#[test]
fn unoffered_features_do_not_count() {
    let mut fs = device("t", 1, 0x1_0000_0000, false);
    assert_eq!(acked(&fs), 0);
    fs.ack_features(0, 0xffff_ffff);
    assert_eq!(acked(&fs), 0);
    fs.ack_features(2, 0xffff_ffff);
    assert_eq!(acked(&fs), 0);
    fs.ack_features(1, 0xffff_ffff);
    assert_eq!(acked(&fs), 0x1_0000_0000);
    fs.ack_features(1, 0);
    assert_eq!(acked(&fs), 0x1_0000_0000);
}

#[test]
fn guest_reads_tag_and_queue_count() {
    let fs = device("myfs", 0x0102, u64::MAX, false);
    let mut data = [0xffu8; 40];
    fs.read_config(0, &mut data);
    assert_eq!(&data[..4], b"myfs");
    assert_eq!(&data[4..36], &[0u8; 32]);
    assert_eq!(&data[36..], &[2u8, 1, 0, 0]);
}

#[test]
fn long_tag_is_cut_off() {
    let tag = "abcdefghijklmnopqrstuvwxyzabcdefghijklmnopqrstuvwxyz";
    let fs = device(tag, 1, u64::MAX, false);
    let mut data = [0u8; 40];
    fs.read_config(0, &mut data);
    assert_eq!(&data[..36], &tag.as_bytes()[..36]);
    assert_eq!(&data[36..], &[1u8, 0, 0, 0]);
}

#[test]
fn tag_of_many_byte_characters() {
    let fs = device("f\u{fc}r", 1, u64::MAX, false);
    let mut data = [0xffu8; 6];
    fs.read_config(0, &mut data);
    assert_eq!(data, [0x66, 0xc3, 0xbc, 0x72, 0, 0]);
}

#[test]
fn reads_at_and_past_the_end() {
    let fs = device("t", 7, u64::MAX, false);
    let mut data = [0xeeu8; 8];
    fs.read_config(36, &mut data);
    assert_eq!(data, [7, 0, 0, 0, 0xee, 0xee, 0xee, 0xee]);
    let mut data = [0xeeu8; 2];
    fs.read_config(40, &mut data);
    assert_eq!(data, [0xee, 0xee]);
    fs.read_config(u64::MAX, &mut data);
    assert_eq!(data, [0xee, 0xee]);
    let mut data = [0u8; 0];
    fs.read_config(3, &mut data);
}

#[test]
fn reading_in_pieces() {
    let fs = device("some tag", 7, u64::MAX, false);
    let mut whole = [0u8; 12];
    fs.read_config(30, &mut whole);
    let mut first = [0u8; 5];
    let mut second = [0u8; 7];
    fs.read_config(30, &mut first);
    fs.read_config(35, &mut second);
    assert_eq!(&whole[..5], &first[..]);
    assert_eq!(&whole[5..], &second[..]);
}

#[test]
fn a_read_gives_back_a_write() {
    let mut fs = device("myfs", 1, u64::MAX, false);
    fs.write_config(38, &[0xaa, 0xbb]);
    let mut data = [0u8; 4];
    fs.read_config(36, &mut data);
    assert_eq!(data, [1, 0, 0xaa, 0xbb]);
    let mut tag = [0u8; 4];
    fs.read_config(0, &mut tag);
    assert_eq!(&tag, b"myfs");
    fs.write_config(40, &[]);
}

#[test]
fn a_write_past_the_end_is_refused() {
    let mut fs = device("myfs", 1, u64::MAX, false);
    fs.write_config(38, &[0xaa, 0xbb, 0xcc]);
    fs.write_config(1000, &[]);
    let mut data = [0u8; 4];
    fs.read_config(36, &mut data);
    assert_eq!(data, [1, 0, 0, 0]);
}

#[test]
fn shared_memory_window_is_handed_out() {
    let fs = device("t", 1, u64::MAX, true);
    let regions = fs.get_shm_regions().unwrap();
    assert_eq!((regions.addr, regions.len), (0x1000, 0x8000));
    assert!(device("t", 1, u64::MAX, false).get_shm_regions().is_none());
}

fn event() -> EventFd {
    EventFd::new(libc::EFD_NONBLOCK).unwrap()
}

#[test]
fn activation_wants_one_queue_and_event_per_queue() {
    let fs = device("t", 2, u64::MAX, false);
    assert!(matches!(fs.activate(3, 3), Ok(Activation::KillEvent)));
    assert!(matches!(fs.activate(2, 3), Err(ActivateError::BadActivate)));
    assert!(matches!(fs.activate(3, 4), Err(ActivateError::BadActivate)));
}

#[test]
fn activation_of_a_device_with_a_window() {
    let mut fs = device("t", 2, u64::MAX, true);
    let stage = fs.activate(3, 3).unwrap();
    assert_eq!(
        stage.call(&fs),
        Some(ActivateCall::CreateKillEvent { flags: libc::EFD_NONBLOCK })
    );
    let stage = stage.reply(&mut fs, ActivateReply::KillEvent(Ok(event()))).unwrap();
    assert_eq!(
        stage.call(&fs),
        Some(ActivateCall::SetupVhostUser { acked_features: 0x4000_0000 })
    );
    let stage = stage.reply(&mut fs, ActivateReply::VhostUser(Ok(3))).unwrap();
    assert_eq!(
        stage.call(&fs),
        Some(ActivateCall::CreateSlaveHandler(SlaveReqHandler {
            cache_size: 0x8000,
            mmap_cache_addr: 0x7000,
        }))
    );
    let stage = stage.reply(&mut fs, ActivateReply::SlaveHandler(Ok(()))).unwrap();
    assert_eq!(stage.call(&fs), Some(ActivateCall::SetSlaveRequestFd));
    let stage = stage.reply(&mut fs, ActivateReply::SlaveRequestFd(Ok(()))).unwrap();
    assert_eq!(
        stage.call(&fs),
        Some(ActivateCall::SpawnWorker { num_queues: 3, slave: true })
    );
    let stage = stage.reply(&mut fs, ActivateReply::Worker(Ok(()))).unwrap();
    assert_eq!(stage, Activation::Active);
    assert_eq!(stage.call(&fs), None);
}

#[test]
fn activation_without_requests_of_the_daemon() {
    // No window, or no protocol features: no request channel either way.
    for mut fs in [device("t", 1, u64::MAX, false), device("t", 1, 0x1_0000_0000, true)] {
        let stage = fs.activate(2, 2).unwrap();
        let stage = stage.reply(&mut fs, ActivateReply::KillEvent(Ok(event()))).unwrap();
        let stage = stage.reply(&mut fs, ActivateReply::VhostUser(Ok(2))).unwrap();
        assert_eq!(
            stage.call(&fs),
            Some(ActivateCall::SpawnWorker { num_queues: 2, slave: false })
        );
    }
}

fn io_error() -> std::io::Error {
    std::io::Error::from_raw_os_error(libc::EMFILE)
}

#[test]
fn each_failure_of_an_activation() {
    let mut fs = device("t", 1, u64::MAX, true);
    let kill = fs.activate(2, 2).unwrap();
    assert!(matches!(
        kill.reply(&mut fs, ActivateReply::KillEvent(Err(io_error()))),
        Err(ActivateError::BadActivate)
    ));
    assert!(fs.take_kill_evt().is_none());
    let kill = fs.activate(2, 2).unwrap();
    let vhost_user = kill.reply(&mut fs, ActivateReply::KillEvent(Ok(event()))).unwrap();
    assert_eq!(vhost_user, Activation::VhostUser);
    assert!(matches!(
        vhost_user.reply(&mut fs, ActivateReply::VhostUser(Err(FsError::EpollCtl(io_error())))),
        Err(ActivateError::VhostUserSetup(FsError::EpollCtl(_)))
    ));
    let handler = Activation::SlaveHandler { call_evts: 2 };
    let error = vhost::vhost_user::Error::InvalidParam;
    assert!(matches!(
        handler.reply(&mut fs, ActivateReply::SlaveHandler(Err(error))),
        Err(ActivateError::VhostUserSetup(FsError::MasterReqHandlerCreation(
            vhost::vhost_user::Error::InvalidParam
        )))
    ));
    let request_fd = Activation::SlaveRequestFd { call_evts: 2 };
    let error = vhost::Error::InvalidQueue;
    assert!(matches!(
        request_fd.reply(&mut fs, ActivateReply::SlaveRequestFd(Err(error))),
        Err(ActivateError::VhostUserSetup(FsError::VhostUserSetSlaveRequestFd(
            vhost::Error::InvalidQueue
        )))
    ));
    let worker = Activation::Worker { call_evts: 2, slave: true };
    assert!(matches!(
        worker.reply(&mut fs, ActivateReply::Worker(Err(io_error()))),
        Err(ActivateError::BadActivate)
    ));
    assert!(fs.take_kill_evt().is_some());
}

#[test]
fn the_kill_event_is_signalled_once() {
    let mut fs = device("t", 1, u64::MAX, false);
    assert!(fs.take_kill_evt().is_none());
    let evt = event();
    let clone = evt.try_clone().unwrap();
    let stage = fs.activate(2, 2).unwrap();
    assert!(stage.reply(&mut fs, ActivateReply::KillEvent(Ok(clone))).is_ok());
    let (kill_evt, value) = fs.take_kill_evt().unwrap();
    assert_eq!(value, 1);
    assert!(kill_evt.write(value).is_ok());
    assert_eq!(evt.read().unwrap(), 1);
    assert!(fs.take_kill_evt().is_none());
}

#[test]
fn acknowledgements_add_up_in_any_order() {
    let mut one = device("t", 1, u64::MAX, false);
    let mut other = device("t", 1, u64::MAX, false);
    one.ack_features(0, 0x4000_0001);
    one.ack_features(1, 0x3);
    one.ack_features(1, 0x3);
    other.ack_features(1, 0x3);
    other.ack_features(0, 0x4000_0001);
    assert_eq!(acked(&one), 0x1_4000_0000);
    assert_eq!(acked(&other), 0x1_4000_0000);
}

#[test]
fn features_and_configuration_are_independent() {
    let mut fs = device("myfs", 1, u64::MAX, false);
    fs.ack_features(1, 1);
    let mut data = [0u8; 4];
    fs.read_config(0, &mut data);
    assert_eq!(&data, b"myfs");
    fs.write_config(36, &[9, 9, 9, 9]);
    assert_eq!(acked(&fs), 0x1_4000_0000);
    assert_eq!(fs.features(1), 1);
}
