# fuser

A user-space implementation of the FUSE protocol whose rules are stated as contracts and proved by
Verus: how requests are read and replies are written, what the connection to the kernel can be
configured to, which notifications may be sent, how mount options are checked and handed on, and
what follows from what the system answers while a filesystem is mounted and unmounted.

- `src/ll` is the protocol: structures and their bytes, requests, replies, directory listings,
  notifications, error numbers.
- `src/mnt` is mounting: options, the arguments of system calls and mount helpers, and the steps
  that are taken until a filesystem is mounted or unmounted.
- `src/container` holds slices under various kinds of ownership.
- The other files of `src` hold the types that a filesystem deals with, and the decisions of a
  session: what is configured, what follows from a read, what is closed and when.
- `app` is ordinary Rust around the library: devices, sockets, processes, locales, runtimes.
- `tests` runs the library.

The library makes no system calls. It says what to do, `app` does it and hands back what came of it.
The laws that span several functions are public proof functions, each beside what it speaks of.

The library speaks the Linux dialect of the protocol, with numbers in little-endian order.
