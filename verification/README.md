# fc_block

A verified model of a virtio block device front-end for a microVM monitor.

- `src/` is the Verus library: the block device configuration (`drive`),
  the virtio backend over a disk image (`virtio_block`), the vhost-user
  backend (`vhost_user_block`), the `Block` device that dispatches between
  them (`block`), the parsing and completion of virtio block requests
  (`request`), the rate limiter with its token buckets (`rate_limiter`),
  the driver's reads and writes of the configuration space (`config_space`),
  and properties that relate the operations (`laws`).
- `app/` holds what the library leaves to the host: opening disk images,
  moving request data between the image and guest memory,
  event file descriptors, registration with the event manager, error
  messages, and the Apple Virtualization Framework wrapper (macOS only).
- `tests/` exercises the library on concrete values.
