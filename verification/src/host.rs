//! Numbers that come from the host libraries.
//!
//! Each constant below is the value that contracts speak of. The function of
//! the same name in lower case reads the value from the library that defines it.
use vhost::vhost_user::message::VhostUserProtocolFeatures;
use vhost::vhost_user::message::VhostUserVirtioFeatures;
use vstd::prelude::*;

verus! {

/// The epoll event mask for "readable".
pub const EPOLLIN: u32 = 0x1;

/// Reads `epoll::Events::EPOLLIN.bits()`: the mask of the epoll crate for a
/// readable file descriptor, which is `libc::EPOLLIN`. The value is the same on
/// every Linux architecture.
#[verifier::external_body]
pub(crate) fn epollin() -> (mask: u32)
    ensures
        mask == EPOLLIN,
{
    epoll::Events::EPOLLIN.bits()
}

/// The feature bit by which a backend says that it has protocol features.
pub const PROTOCOL_FEATURES: u64 = 0x4000_0000;

/// Reads `VhostUserVirtioFeatures::PROTOCOL_FEATURES.bits()`: the bit that the
/// vhost crate defines for the protocol features of vhost-user.
#[verifier::external_body]
pub(crate) fn protocol_features() -> (value: u64)
    ensures
        value == PROTOCOL_FEATURES,
{
    VhostUserVirtioFeatures::PROTOCOL_FEATURES.bits()
}

/// The protocol feature of vhost-user for more than one queue.
pub const MQ: u64 = 0x1;

/// Reads `VhostUserProtocolFeatures::MQ.bits()`: the bit that the vhost crate
/// defines for more than one queue.
#[verifier::external_body]
pub(crate) fn mq() -> (value: u64)
    ensures
        value == MQ,
{
    VhostUserProtocolFeatures::MQ.bits()
}

/// The protocol feature of vhost-user for replies to requests that ask for one.
pub const REPLY_ACK: u64 = 0x8;

/// Reads `VhostUserProtocolFeatures::REPLY_ACK.bits()`: the bit that the vhost crate
/// defines for replies to requests that ask for one.
#[verifier::external_body]
pub(crate) fn reply_ack() -> (value: u64)
    ensures
        value == REPLY_ACK,
{
    VhostUserProtocolFeatures::REPLY_ACK.bits()
}

/// The protocol feature of vhost-user for requests of the backend on a channel of its own.
pub const SLAVE_REQ: u64 = 0x20;

/// Reads `VhostUserProtocolFeatures::SLAVE_REQ.bits()`: the bit that the vhost crate
/// defines for requests of the backend on a channel of its own.
#[verifier::external_body]
pub(crate) fn slave_req() -> (value: u64)
    ensures
        value == SLAVE_REQ,
{
    VhostUserProtocolFeatures::SLAVE_REQ.bits()
}

/// The protocol feature of vhost-user for file descriptors in the requests of the backend.
pub const SLAVE_SEND_FD: u64 = 0x400;

/// Reads `VhostUserProtocolFeatures::SLAVE_SEND_FD.bits()`: the bit that the vhost crate
/// defines for file descriptors in the requests of the backend.
#[verifier::external_body]
pub(crate) fn slave_send_fd() -> (value: u64)
    ensures
        value == SLAVE_SEND_FD,
{
    VhostUserProtocolFeatures::SLAVE_SEND_FD.bits()
}

/// The protection of pages that may not be accessed.
pub const PROT_NONE: i32 = 0x0;

/// Reads `libc::PROT_NONE`. The libc crate gives it this value
/// on every Linux architecture.
#[verifier::external_body]
pub(crate) fn prot_none() -> (value: i32)
    ensures
        value == PROT_NONE,
{
    libc::PROT_NONE
}

/// The mapping flag for a mapping whose changes are shared.
pub const MAP_SHARED: i32 = 0x1;

/// Reads `libc::MAP_SHARED`. The libc crate gives it this value
/// on every Linux architecture.
#[verifier::external_body]
pub(crate) fn map_shared() -> (value: i32)
    ensures
        value == MAP_SHARED,
{
    libc::MAP_SHARED
}

/// The mapping flag for a mapping whose changes stay private.
pub const MAP_PRIVATE: i32 = 0x2;

/// Reads `libc::MAP_PRIVATE`. The libc crate gives it this value
/// on every Linux architecture.
#[verifier::external_body]
pub(crate) fn map_private() -> (value: i32)
    ensures
        value == MAP_PRIVATE,
{
    libc::MAP_PRIVATE
}

/// The mapping flag for a mapping at exactly the given address.
pub const MAP_FIXED: i32 = 0x10;

/// Reads `libc::MAP_FIXED`. The libc crate gives it this value
/// on every Linux architecture.
#[verifier::external_body]
pub(crate) fn map_fixed() -> (value: i32)
    ensures
        value == MAP_FIXED,
{
    libc::MAP_FIXED
}

/// The mapping flag for a mapping without a file.
pub const MAP_ANONYMOUS: i32 = 0x20;

/// Reads `libc::MAP_ANONYMOUS`. The libc crate gives it this value
/// on x86-64 and AArch64 Linux, where this device runs.
#[verifier::external_body]
pub(crate) fn map_anonymous() -> (value: i32)
    ensures
        value == MAP_ANONYMOUS,
{
    libc::MAP_ANONYMOUS
}

/// The flag for a synchronous write-back of a mapping.
pub const MS_SYNC: i32 = 0x4;

/// Reads `libc::MS_SYNC`. The libc crate gives it this value
/// on every Linux architecture.
#[verifier::external_body]
pub(crate) fn ms_sync() -> (value: i32)
    ensures
        value == MS_SYNC,
{
    libc::MS_SYNC
}

/// The flag for an event whose reads and writes do not block.
pub const EFD_NONBLOCK: i32 = 0x800;

/// Reads `libc::EFD_NONBLOCK`. The libc crate gives it this value
/// on x86-64 and AArch64 Linux, where this device runs.
#[verifier::external_body]
pub(crate) fn efd_nonblock() -> (value: i32)
    ensures
        value == EFD_NONBLOCK,
{
    libc::EFD_NONBLOCK
}

/// Reads `libc::MAP_FAILED`, the address that a failed mapping returns. The libc
/// crate defines it as the address whose bits are all set.
#[verifier::external_body]
pub(crate) fn map_failed() -> (addr: usize)
    ensures
        addr == usize::MAX,
{
    libc::MAP_FAILED as usize
}

} // verus!
