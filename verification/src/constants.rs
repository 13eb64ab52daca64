use vstd::prelude::*;

verus! {

/// Character device through which the kernel exposes the `fbppid` interface.
pub const DEVICE_PATH: &'static str = "/dev/fbppid";

} // verus!
