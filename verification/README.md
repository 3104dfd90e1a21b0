# virtio_fs

A vhost-user virtio-fs device whose decisions are verified with Verus.

`src/` is the library. It decides and computes; it makes no system call. Setting
a device up, activating it and running its worker are state machines: each names
the next outside call, takes its result, and says in its contract what follows.

* `setup`: connection to the daemon and feature negotiation
* `device`: feature bits, queues, configuration space and shared memory window
* `activate`: from the ready guest driver to the running worker
* `epoll_loop`: the worker's event loop
* `slave`: mapping requests of the daemon
* `host`: constants of the host libraries, with the values that proofs rely on

Functions whose names begin with `law_` state what holds of the library as a
whole.

`app/` makes the calls: sockets, event file descriptors, memory mappings and the
worker thread.
