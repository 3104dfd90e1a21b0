//! Requests of the daemon to map files into the shared memory window.
//!
//! A handler turns each request into one call on the host, and the result of
//! the call into what to do next. Only the first entry of a request is looked
//! at.
use crate::host;
use crate::host::MAP_ANONYMOUS;
use crate::host::MAP_FIXED;
use crate::host::MAP_PRIVATE;
use crate::host::MAP_SHARED;
use crate::host::MS_SYNC;
use crate::host::PROT_NONE;
use vstd::prelude::*;

verus! {

/// The length by which the daemon asks to unmap the whole window.
pub const WHOLE_WINDOW: u64 = 0xffff_ffff_ffff_ffff;

/// A request of the daemon; each array holds one value per entry.
#[derive(Clone, Copy, Debug, PartialEq, Eq)]
pub struct FsSlaveMsg {
    /// Where in the file each entry starts.
    pub fd_offset: [u64; 8],
    /// Where in the window each entry starts.
    pub cache_offset: [u64; 8],
    /// The length of each entry.
    pub len: [u64; 8],
    /// The protection bits of each entry.
    pub flags: [u64; 8],
}

/// The arguments of a call of `mmap`.
#[derive(Clone, Copy, Debug, PartialEq, Eq, Structural)]
pub struct MmapCall {
    /// The address to map at.
    pub addr: u64,
    /// The length of the mapping.
    pub len: usize,
    /// The protection bits.
    pub prot: i32,
    /// The mapping flags.
    pub flags: i32,
    /// The file descriptor to map.
    pub fd: i32,
    /// Where in the file the mapping starts.
    pub offset: i64,
}

/// The arguments of a call of `msync`.
#[derive(Clone, Copy, Debug, PartialEq, Eq, Structural)]
pub struct MsyncCall {
    /// The address to write back from.
    pub addr: u64,
    /// The length to write back.
    pub len: usize,
    /// How to write back.
    pub flags: i32,
}

/// What to do once a call on the host has returned.
#[derive(Clone, Copy, Debug, PartialEq, Eq, Structural)]
pub enum SlaveStep {
    /// Close this file descriptor.
    Close { fd: i32 },
    /// The request has been carried out.
    Complete,
    /// The request has failed with the last error of the host.
    LastOsError,
}

/// The handler of the daemon's requests.
#[derive(Clone, Copy, Debug, PartialEq, Eq, Structural)]
pub struct SlaveReqHandler {
    /// The length of the window.
    pub cache_size: u64,
    /// The host address of the window.
    pub mmap_cache_addr: u64,
}

impl SlaveReqHandler {
    /// The host address that a request is about.
    pub open spec fn request_addr(self, fs: FsSlaveMsg) -> int {
        self.mmap_cache_addr + fs.cache_offset[0]
    }

    /// The call that maps a file.
    pub open spec fn map_call(self, fs: FsSlaveMsg, fd: i32) -> MmapCall {
        MmapCall {
            addr: self.request_addr(fs) as u64,
            len: fs.len[0] as usize,
            prot: fs.flags[0] as i32,
            flags: MAP_SHARED | MAP_FIXED,
            fd,
            offset: fs.fd_offset[0] as i64,
        }
    }

    /// The call that unmaps a range: it puts an inaccessible mapping there.
    pub open spec fn unmap_call(self, fs: FsSlaveMsg) -> MmapCall {
        MmapCall {
            addr: self.request_addr(fs) as u64,
            len: if fs.len[0] == WHOLE_WINDOW {
                self.cache_size as usize
            } else {
                fs.len[0] as usize
            },
            prot: PROT_NONE,
            flags: MAP_ANONYMOUS | MAP_PRIVATE | MAP_FIXED,
            fd: -1i32,
            offset: 0,
        }
    }

    /// The call that writes a range back.
    pub open spec fn sync_call(self, fs: FsSlaveMsg) -> MsyncCall {
        MsyncCall {
            addr: self.request_addr(fs) as u64,
            len: fs.len[0] as usize,
            flags: MS_SYNC,
        }
    }

    /// A change of the daemon's configuration needs nothing to be done.
    pub fn handle_config_change(&self) -> (step: SlaveStep)
        ensures
            step == SlaveStep::Complete,
    {
        SlaveStep::Complete
    }

    /// The call that carries out a request to map the file `fd`.
    pub fn fs_slave_map(&self, fs: &FsSlaveMsg, fd: i32) -> (call: MmapCall)
        requires
            self.request_addr(*fs) <= u64::MAX,
        ensures
            call == self.map_call(*fs, fd),
    {
        let addr: u64 = self.mmap_cache_addr + fs.cache_offset[0];
        MmapCall {
            addr,
            len: #[verifier::truncate] (fs.len[0] as usize),
            prot: #[verifier::truncate] (fs.flags[0] as i32),
            flags: host::map_shared() | host::map_fixed(),
            fd,
            offset: #[verifier::truncate] (fs.fd_offset[0] as i64),
        }
    }

    /// What to do once the mapping of the file `fd` has returned `addr`.
    pub fn map_returned(addr: usize, fd: i32) -> (step: SlaveStep)
        ensures
            step == if addr == usize::MAX {
                SlaveStep::LastOsError
            } else {
                SlaveStep::Close { fd }
            },
    {
        if addr == host::map_failed() {
            SlaveStep::LastOsError
        } else {
            SlaveStep::Close { fd }
        }
    }

    /// What to do once the file has been closed, with the result `ret`.
    pub fn close_returned(ret: i32) -> (step: SlaveStep)
        ensures
            step == if ret == -1 {
                SlaveStep::LastOsError
            } else {
                SlaveStep::Complete
            },
    {
        if ret == -1 {
            SlaveStep::LastOsError
        } else {
            SlaveStep::Complete
        }
    }

    /// The call that carries out a request to unmap a range, or the whole
    /// window.
    pub fn fs_slave_unmap(&self, fs: &FsSlaveMsg) -> (call: MmapCall)
        requires
            self.request_addr(*fs) <= u64::MAX,
        ensures
            call == self.unmap_call(*fs),
    {
        let mut len: u64 = fs.len[0];
        if len == WHOLE_WINDOW {
            len = self.cache_size;
        }
        let addr: u64 = self.mmap_cache_addr + fs.cache_offset[0];
        MmapCall {
            addr,
            len: #[verifier::truncate] (len as usize),
            prot: host::prot_none(),
            flags: host::map_anonymous() | host::map_private() | host::map_fixed(),
            fd: -1,
            offset: 0,
        }
    }

    /// What to do once the unmapping has returned `addr`.
    pub fn unmap_returned(addr: usize) -> (step: SlaveStep)
        ensures
            step == if addr == usize::MAX {
                SlaveStep::LastOsError
            } else {
                SlaveStep::Complete
            },
    {
        if addr == host::map_failed() {
            SlaveStep::LastOsError
        } else {
            SlaveStep::Complete
        }
    }

    /// The call that carries out a request to write a range back.
    pub fn fs_slave_sync(&self, fs: &FsSlaveMsg) -> (call: MsyncCall)
        requires
            self.request_addr(*fs) <= u64::MAX,
        ensures
            call == self.sync_call(*fs),
    {
        let addr: u64 = self.mmap_cache_addr + fs.cache_offset[0];
        MsyncCall { addr, len: #[verifier::truncate] (fs.len[0] as usize), flags: host::ms_sync() }
    }

    /// What to do once the write-back has returned `ret`.
    pub fn sync_returned(ret: i32) -> (step: SlaveStep)
        ensures
            step == if ret == -1 {
                SlaveStep::LastOsError
            } else {
                SlaveStep::Complete
            },
    {
        if ret == -1 {
            SlaveStep::LastOsError
        } else {
            SlaveStep::Complete
        }
    }
}

/// Mapping, unmapping and writing back the same entry concern the same range,
/// unless the entry asks for the whole window to be unmapped.
pub proof fn law_requests_share_their_range(handler: SlaveReqHandler, fs: FsSlaveMsg, fd: i32)
    ensures
        handler.unmap_call(fs).addr == handler.map_call(fs, fd).addr,
        handler.sync_call(fs).addr == handler.map_call(fs, fd).addr,
        handler.sync_call(fs).len == handler.map_call(fs, fd).len,
        fs.len[0] != WHOLE_WINDOW ==> handler.unmap_call(fs).len == handler.map_call(fs, fd).len,
{
}

/// A request for the whole window unmaps as many bytes as the window has.
pub proof fn law_whole_window_is_unmapped(handler: SlaveReqHandler, fs: FsSlaveMsg)
    requires
        fs.len[0] == WHOLE_WINDOW,
        handler.cache_size <= usize::MAX,
    ensures
        handler.unmap_call(fs).len == handler.cache_size,
{
}

/// The calls depend on the first entry of a request alone.
pub proof fn law_first_entry_decides(
    handler: SlaveReqHandler,
    fs1: FsSlaveMsg,
    fs2: FsSlaveMsg,
    fd: i32,
)
    requires
        fs1.fd_offset[0] == fs2.fd_offset[0],
        fs1.cache_offset[0] == fs2.cache_offset[0],
        fs1.len[0] == fs2.len[0],
        fs1.flags[0] == fs2.flags[0],
    ensures
        handler.map_call(fs1, fd) == handler.map_call(fs2, fd),
        handler.unmap_call(fs1) == handler.unmap_call(fs2),
        handler.sync_call(fs1) == handler.sync_call(fs2),
{
}

/// An unmapped range is inaccessible and backed by no file, and both mapping and
/// unmapping replace what was mapped at exactly the requested address.
pub proof fn law_mapping_flags(handler: SlaveReqHandler, fs: FsSlaveMsg, fd: i32)
    ensures
        handler.map_call(fs, fd).flags & MAP_FIXED != 0,
        handler.map_call(fs, fd).flags & MAP_SHARED != 0,
        handler.map_call(fs, fd).flags & MAP_PRIVATE == 0,
        handler.map_call(fs, fd).fd == fd,
        handler.unmap_call(fs).flags & MAP_FIXED != 0,
        handler.unmap_call(fs).flags & MAP_ANONYMOUS != 0,
        handler.unmap_call(fs).flags & MAP_SHARED == 0,
        handler.unmap_call(fs).prot == PROT_NONE,
        handler.unmap_call(fs).fd == -1,
{
    assert((0x1i32 | 0x10i32) & 0x10i32 != 0) by (bit_vector);
    assert((0x1i32 | 0x10i32) & 0x1i32 != 0) by (bit_vector);
    assert((0x1i32 | 0x10i32) & 0x2i32 == 0) by (bit_vector);
    assert((0x20i32 | 0x2i32 | 0x10i32) & 0x10i32 != 0) by (bit_vector);
    assert((0x20i32 | 0x2i32 | 0x10i32) & 0x20i32 != 0) by (bit_vector);
    assert((0x20i32 | 0x2i32 | 0x10i32) & 0x1i32 == 0) by (bit_vector);
}

/// A file is mapped at the host address of the window plus the offset in the
/// window, with the length, the protection bits and the file offset of the
/// request. A number that is too wide for the call keeps its low bits, as two's
/// complement.
pub proof fn law_map_goes_where_asked(handler: SlaveReqHandler, fs: FsSlaveMsg, fd: i32)
    requires
        handler.mmap_cache_addr + fs.cache_offset[0] <= u64::MAX,
    ensures
        ({
            let call = handler.map_call(fs, fd);
            let low_flags = fs.flags[0] as int % 0x1_0000_0000;
            &&& handler.request_addr(fs) == handler.mmap_cache_addr + fs.cache_offset[0]
            &&& call.addr == handler.mmap_cache_addr + fs.cache_offset[0]
            &&& fs.len[0] <= usize::MAX ==> call.len == fs.len[0]
            &&& fs.flags[0] <= i32::MAX ==> call.prot == fs.flags[0]
            &&& call.prot == if low_flags < 0x8000_0000 {
                low_flags
            } else {
                low_flags - 0x1_0000_0000
            }
            &&& call.flags == 0x11
            &&& call.fd == fd
            &&& fs.fd_offset[0] <= i64::MAX ==> call.offset == fs.fd_offset[0]
            &&& fs.fd_offset[0] > i64::MAX ==> call.offset == fs.fd_offset[0]
                - 0x1_0000_0000_0000_0000
        }),
{
    let flags = fs.flags[0];
    let offset = fs.fd_offset[0];
    let low = flags % 0x1_0000_0000;
    assert(low < 0x8000_0000 ==> (flags as i32) as i64 == low as i64) by (bit_vector)
        requires
            low == flags % 0x1_0000_0000,
    ;
    assert(low >= 0x8000_0000 ==> ((flags as i32) as i64 + 0x1_0000_0000) as i64 == low as i64)
        by (bit_vector)
        requires
            low == flags % 0x1_0000_0000,
    ;
    assert(offset > 0x7fff_ffff_ffff_ffff ==> ((offset as i64) as i128
        + 0x1_0000_0000_0000_0000i128) as i128 == offset as i128) by (bit_vector);
    assert(0x1i32 | 0x10i32 == 0x11i32) by (bit_vector);
}

/// A range is unmapped at the host address of the window plus the offset in the
/// window, for the length of the request, or for the length of the window if the
/// length of the request has all bits set.
pub proof fn law_unmap_goes_where_asked(handler: SlaveReqHandler, fs: FsSlaveMsg)
    requires
        handler.mmap_cache_addr + fs.cache_offset[0] <= u64::MAX,
    ensures
        ({
            let call = handler.unmap_call(fs);
            &&& call.addr == handler.mmap_cache_addr + fs.cache_offset[0]
            &&& fs.len[0] != 0xffff_ffff_ffff_ffff && fs.len[0] <= usize::MAX ==> call.len
                == fs.len[0]
            &&& fs.len[0] == 0xffff_ffff_ffff_ffff && handler.cache_size <= usize::MAX ==> call.len
                == handler.cache_size
            &&& call.prot == 0
            &&& call.flags == 0x32
            &&& call.fd == -1
            &&& call.offset == 0
        }),
{
    assert(0x20i32 | 0x2i32 | 0x10i32 == 0x32i32) by (bit_vector);
}

/// A range is written back at the host address of the window plus the offset in
/// the window, for the length of the request, synchronously.
pub proof fn law_sync_goes_where_asked(handler: SlaveReqHandler, fs: FsSlaveMsg)
    requires
        handler.mmap_cache_addr + fs.cache_offset[0] <= u64::MAX,
    ensures
        handler.sync_call(fs).addr == handler.mmap_cache_addr + fs.cache_offset[0],
        fs.len[0] <= usize::MAX ==> handler.sync_call(fs).len == fs.len[0],
        handler.sync_call(fs).flags == 4,
{
}

/// Requests whose offsets in the window differ concern addresses that differ by
/// as much, so that ranges which do not overlap in the window do not overlap on
/// the host.
pub proof fn law_addresses_move_with_offsets(
    handler: SlaveReqHandler,
    fs1: FsSlaveMsg,
    fs2: FsSlaveMsg,
    fd1: i32,
    fd2: i32,
)
    requires
        handler.mmap_cache_addr + fs1.cache_offset[0] <= u64::MAX,
        handler.mmap_cache_addr + fs2.cache_offset[0] <= u64::MAX,
    ensures
        ({
            let distance = fs2.cache_offset[0] - fs1.cache_offset[0];
            &&& handler.map_call(fs2, fd2).addr - handler.map_call(fs1, fd1).addr == distance
            &&& handler.unmap_call(fs2).addr - handler.unmap_call(fs1).addr == distance
            &&& handler.sync_call(fs2).addr - handler.sync_call(fs1).addr == distance
            &&& handler.unmap_call(fs2).addr - handler.map_call(fs1, fd1).addr == distance
        }),
{
}

} // verus!
