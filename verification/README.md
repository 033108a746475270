# devices

The control paths of virtio devices that run in a process of their own, and of the jail that such a
process runs in, verified with Verus.

- `src/block`: a block device. How a request is executed and answered, the tasks of the worker, the
  configuration space, and the life of the device.
- `src/vhost_user`: the device side of the vhost-user protocol. The request handler of a device, the
  backends of block and net devices, and a block device that only speaks the protocol.
- `src/jail`: the calls that configure a jail of libminijail, and the way of a process into it.
- `tests`: tests of the library.
- `app`: the programs around it. They own files, guest memory, threads and sockets, and perform what
  the library decides on.

The library does no I/O. Where a decision depends on what came of an operation, the library says
what to do next and is told the outcome. What it promises of whole runs, such as that no request
changes a read-only disk, stands in proof functions whose names begin with `law_`.
