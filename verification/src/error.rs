//! Errors of the device, and the outside types that the device carries.
use vstd::prelude::*;

verus! {

/// `std::io::Error`, carried through as an opaque value.
#[verifier::external_type_specification]
#[verifier::external_body]
pub struct ExIoError(std::io::Error);

/// `vhost::Error`, the error of vhost requests, carried through as an opaque
/// value.
#[verifier::external_type_specification]
#[verifier::external_body]
pub struct ExVhostError(vhost::Error);

/// `vhost::vhost_user::Error`, the error of the vhost-user transport, carried
/// through as an opaque value.
#[verifier::external_type_specification]
#[verifier::external_body]
pub struct ExVhostUserError(vhost::vhost_user::Error);

/// Failures of the vhost-user device and of its worker.
#[derive(Debug)]
pub enum FsError {
    /// Creating the epoll file descriptor failed.
    EpollCreateFd(std::io::Error),
    /// Adding a file descriptor to the epoll set failed.
    EpollCtl(std::io::Error),
    /// Waiting for epoll events failed.
    EpollWait(std::io::Error),
    /// Signalling a used queue to the guest failed.
    FailedSignalingUsedQueue(std::io::Error),
    /// The request handler for the daemon could not be created.
    MasterReqHandlerCreation(vhost::vhost_user::Error),
    /// Connecting to the vhost-user socket failed.
    VhostUserCreateMaster(vhost::Error),
    /// Taking ownership of the backend failed.
    VhostUserSetOwner(vhost::Error),
    /// Reading the features of the backend failed.
    VhostUserGetFeatures(vhost::Error),
    /// Setting the features of the backend failed.
    VhostUserSetFeatures(vhost::Error),
    /// Reading the protocol features of the backend failed.
    VhostUserGetProtocolFeatures(vhost::Error),
    /// Setting the protocol features of the backend failed.
    VhostUserSetProtocolFeatures(vhost::Error),
    /// Handing the request channel to the backend failed.
    VhostUserSetSlaveRequestFd(vhost::Error),
    /// Handling a request of the daemon failed.
    VhostUserSlaveRequest(vhost::vhost_user::Error),
}

/// Failures of the activation of a device.
#[derive(Debug)]
pub enum ActivateError {
    /// The device cannot be activated as asked.
    BadActivate,
    /// The vhost-user backend could not be set up.
    VhostUserSetup(FsError),
}

} // verus!
