# fbppid_rs

Userspace side of the FinchBerryOS `fbppid` kernel interface (`/dev/fbppid`),
verified with Verus.

- `src/` is the verified library: the request layouts and ioctl numbers
  (`fbppid_uapi`), the error numbers that mean the interface is unavailable
  (`errno`), the steps of broker registration (`fbppid_register`) and of the
  parent PID query (`fbppid_query`), the procfs fallback (`fallback`,
  `status`) and decimal rendering (`text`). Each step takes the outcome of
  the previous I/O as plain values and names what to do next.
- `app/` runs those steps: it opens the device, issues the ioctls on
  `#[repr(C)]` copies of the request structs, keeps the query backend for
  the process, reads `/proc/<pid>/status` and logs. It offers
  `register_broker`, `query_ppid` and `query_ppid_fallback`.
- `tests/` runs the library on concrete inputs, and compares the status
  parser and the decimal rendering with std.
