# occlum_libos

The host-file and epoll bookkeeping of a library OS, written in Verus.

- `src/fs`: the I/O event bit masks (`IoEvents`), the registry that keeps host
  fds unique (`HostFdRegistry`, `HostFd`, the `HostFile` trait) and `split_path`.
- `src/epoll`: epoll commands, flags, events and attributes with their host
  (`struct epoll_event`) form; `HostFileEpoller`, which tracks the host files
  registered with a host epoll instance and says which `epoll_ctl` call each
  change needs and which file each host event goes to; `EpollEntry`, `EpollFile`.
- `app/`: the host side: the process-wide fd registry, and the `epoll_create1`,
  `epoll_ctl` and `epoll_wait` calls (through `libc`).
