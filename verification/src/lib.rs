//! Userspace side of the FinchBerryOS `fbppid` kernel interface.
//!
//! The library holds the kernel ABI (request layouts and ioctl numbers), the
//! decisions that registering a broker and querying a parent PID go through
//! (which request to send, when the kernel interface counts as unavailable,
//! which error a failure becomes), and the procfs fallback: the path of
//! `/proc/<pid>/status` and the parser for its `PPid:` field.
//!
//! Opening the device, issuing the ioctl, reading procfs and logging are
//! done by the caller, which feeds each outcome back into the step
//! functions here.
pub mod constants;
pub mod device;
pub mod errno;
pub mod fallback;
pub mod fbppid_query;
pub mod fbppid_register;
pub mod fbppid_uapi;
pub mod status;
pub mod text;

pub use constants::DEVICE_PATH;
pub use device::DeviceOpen;
pub use errno::UnavailableErrnos;
pub use fallback::{
    klog_line, ppid_from_status, register_broker_fallback, status_path, FallbackErrorKind,
    FallbackFailure,
};
pub use fbppid_query::{
    finish_fallback, query_after_ioctl, query_begin, select_backend, FallbackRoute, QueryAction,
    QueryBackendKind, QueryError,
};
pub use fbppid_register::{
    register_after_ioctl, register_after_open, register_begin, RegisterAction, RegisterError,
};
pub use fbppid_uapi::{FbppidQueryArgs, FbppidRegisterBrokerArgs};
pub use status::{parse_status_ppid, IntErrorKind, StatusParseError};
