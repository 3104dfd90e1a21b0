use virtio_fs::slave::FsSlaveMsg;
use virtio_fs::slave::MmapCall;
use virtio_fs::slave::MsyncCall;
use virtio_fs::slave::SlaveReqHandler;
use virtio_fs::slave::SlaveStep;

const HANDLER: SlaveReqHandler =
    SlaveReqHandler { cache_size: 0x20_0000, mmap_cache_addr: 0x7000_0000 };

fn message() -> FsSlaveMsg {
    let mut fs = FsSlaveMsg {
        fd_offset: [9; 8],
        cache_offset: [9; 8],
        len: [9; 8],
        flags: [0; 8],
    };
    fs.fd_offset[0] = 0x3000;
    fs.cache_offset[0] = 0x1000;
    fs.len[0] = 0x2000;
    fs.flags[0] = 0x3;
    fs
}

#[test]
fn map_request() {
    assert_eq!(
        HANDLER.fs_slave_map(&message(), 5),
        MmapCall {
            addr: 0x7000_1000,
            len: 0x2000,
            prot: libc::PROT_READ | libc::PROT_WRITE,
            flags: libc::MAP_SHARED | libc::MAP_FIXED,
            fd: 5,
            offset: 0x3000,
        }
    );
}

#[test]
fn a_mapped_file_is_closed() {
    assert_eq!(SlaveReqHandler::map_returned(0x7000_1000, 5), SlaveStep::Close { fd: 5 });
    assert_eq!(
        SlaveReqHandler::map_returned(libc::MAP_FAILED as usize, 5),
        SlaveStep::LastOsError
    );
    assert_eq!(SlaveReqHandler::close_returned(0), SlaveStep::Complete);
    assert_eq!(SlaveReqHandler::close_returned(-1), SlaveStep::LastOsError);
}

#[test]
fn unmap_request() {
    assert_eq!(
        HANDLER.fs_slave_unmap(&message()),
        MmapCall {
            addr: 0x7000_1000,
            len: 0x2000,
            prot: libc::PROT_NONE,
            flags: libc::MAP_ANONYMOUS | libc::MAP_PRIVATE | libc::MAP_FIXED,
            fd: -1,
            offset: 0,
        }
    );
    assert_eq!(SlaveReqHandler::unmap_returned(0x7000_1000), SlaveStep::Complete);
    assert_eq!(
        SlaveReqHandler::unmap_returned(libc::MAP_FAILED as usize),
        SlaveStep::LastOsError
    );
}

#[test]
fn unmap_of_the_whole_window() {
    let mut fs = message();
    fs.cache_offset[0] = 0;
    fs.len[0] = 0xffff_ffff_ffff_ffff;
    let call = HANDLER.fs_slave_unmap(&fs);
    assert_eq!((call.addr, call.len), (0x7000_0000, 0x20_0000));
}

#[test]
fn sync_request() {
    assert_eq!(
        HANDLER.fs_slave_sync(&message()),
        MsyncCall { addr: 0x7000_1000, len: 0x2000, flags: libc::MS_SYNC }
    );
    assert_eq!(SlaveReqHandler::sync_returned(0), SlaveStep::Complete);
    assert_eq!(SlaveReqHandler::sync_returned(-1), SlaveStep::LastOsError);
}

#[test]
fn requests_share_their_range() {
    let map = HANDLER.fs_slave_map(&message(), 5);
    let unmap = HANDLER.fs_slave_unmap(&message());
    let sync = HANDLER.fs_slave_sync(&message());
    assert_eq!((map.addr, map.len), (unmap.addr, unmap.len));
    assert_eq!((map.addr, map.len), (sync.addr, sync.len));
}

#[test]
fn the_first_entry_decides() {
    let mut fs = message();
    fs.len[1] = 0xffff;
    fs.cache_offset[7] = 0xffff;
    assert_eq!(HANDLER.fs_slave_map(&fs, 5), HANDLER.fs_slave_map(&message(), 5));
    assert_eq!(HANDLER.fs_slave_unmap(&fs), HANDLER.fs_slave_unmap(&message()));
}

#[test]
fn wide_values_are_cut_to_the_width_of_the_call() {
    let mut fs = message();
    fs.flags[0] = 0x1_0000_0002;
    fs.fd_offset[0] = 0xffff_ffff_ffff_f000;
    let call = HANDLER.fs_slave_map(&fs, 5);
    assert_eq!(call.prot, 2);
    assert_eq!(call.offset, -4096);
}

#[test]
fn config_changes_need_nothing() {
    assert_eq!(HANDLER.handle_config_change(), SlaveStep::Complete);
}
