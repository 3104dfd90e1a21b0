//! The decision logic of a vhost-user virtio-fs device.
//!
//! The device talks to a file system daemon over a vhost-user socket, serves
//! its configuration space and feature bits to a guest, and maps files of the
//! daemon into a shared memory window on request. This crate holds everything
//! the device decides and computes. It performs no system call and touches no
//! socket: each activity that alternates outside work and decisions is a small
//! state machine that names the next outside call and takes back its result.
//!
//! * [`setup`] brings a device up: connection and feature negotiation.
//! * [`device`] is the device that a guest sees.
//! * [`activate`] starts the device once the guest driver is ready.
//! * [`epoll_loop`] is the worker that forwards interrupts and daemon requests.
//! * [`slave`] answers the mapping requests of the daemon.
//! * [`shm`] describes the shared memory window.
//! * [`error`] lists what can go wrong.
//! * [`host`] holds the numbers that come from the host libraries.
pub mod activate;
pub mod device;
pub mod epoll_loop;
pub mod error;
pub mod host;
pub mod setup;
pub mod shm;
pub mod slave;
