//! ABI shared with the `fbppid` kernel module: the request layouts and the
//! ioctl numbers built from them.
use vstd::prelude::*;

verus! {

const _IOC_NRBITS: u32 = 8;
const _IOC_TYPEBITS: u32 = 8;
const _IOC_SIZEBITS: u32 = 14;

const _IOC_NRSHIFT: u32 = 0;
const _IOC_TYPESHIFT: u32 = _IOC_NRSHIFT + _IOC_NRBITS;
const _IOC_SIZESHIFT: u32 = _IOC_TYPESHIFT + _IOC_TYPEBITS;
const _IOC_DIRSHIFT: u32 = _IOC_SIZESHIFT + _IOC_SIZEBITS;

const _IOC_WRITE: u32 = 1;
const _IOC_READ: u32 = 2;

/// Magic number of this ioctl family (the byte `'P'`); the kernel module
/// uses the same value.
pub const FBPPID_IOC_MAGIC: u32 = 0x50;

/// The ioctl number that the Linux `_IOC` macro builds from a direction, a
/// type, a number and an argument size, computed in 32 bits.
pub open spec fn ioc_spec(dir: u32, ty: u32, nr: u32, size: u32) -> u32 {
    (dir << 30u32) | (ty << 8u32) | (nr << 0u32) | (size << 16u32)
}

/// Builds an ioctl number. When each field fits its width (2 bits of
/// direction, 8 of type, 8 of number, 14 of size), the fields can be read
/// back from the number.
pub fn _ioc(dir: u32, ty: u32, nr: u32, size: u32) -> (r: libc::c_ulong)
    ensures
        r == ioc_spec(dir, ty, nr, size),
        r < 0x1_0000_0000,
        dir < 4 && ty < 256 && nr < 256 && size < 16384 ==> {
            &&& (r >> 30u64) & 3 == dir
            &&& (r >> 16u64) & 0x3fff == size
            &&& (r >> 8u64) & 0xff == ty
            &&& r & 0xff == nr
        },
{
    proof {
        if dir < 4 && ty < 256 && nr < 256 && size < 16384 {
            law_ioc_fields_recoverable(dir, ty, nr, size);
            let x = ioc_spec(dir, ty, nr, size);
            let y = x as u64;
            assert({
                &&& (y >> 30u64) & 3 == (x >> 30u32) & 3u32
                &&& (y >> 16u64) & 0x3fff == (x >> 16u32) & 0x3fffu32
                &&& (y >> 8u64) & 0xff == (x >> 8u32) & 0xffu32
                &&& y & 0xff == x & 0xffu32
            }) by (bit_vector)
                requires
                    y == x as u64,
            ;
        }
    }
    ((dir << _IOC_DIRSHIFT) | (ty << _IOC_TYPESHIFT) | (nr << _IOC_NRSHIFT) | (size
        << _IOC_SIZESHIFT)) as libc::c_ulong
}

/// ioctl number of a request in which userspace writes data to the kernel.
pub fn _iow(ty: u32, nr: u32, size: u32) -> (r: libc::c_ulong)
    ensures
        r == ioc_spec(1, ty, nr, size),
{
    _ioc(_IOC_WRITE, ty, nr, size)
}

/// ioctl number of a request that userspace writes and the kernel answers in place.
pub fn _iowr(ty: u32, nr: u32, size: u32) -> (r: libc::c_ulong)
    ensures
        r == ioc_spec(3, ty, nr, size),
{
    assert(2u32 | 1u32 == 3u32) by (bit_vector);
    _ioc(_IOC_READ | _IOC_WRITE, ty, nr, size)
}

/// Argument of the broker registration request.
///
/// PID 1 tells the kernel which process now acts as the broker.
/// The kernel accepts it only with `pid > 0` and `__pad == 0`.
///
/// This is the request's content, not its memory layout: the struct is not
/// `#[repr(C)]`. The caller copies the fields, in this order, into a
/// `#[repr(C)]` struct of `FBPPID_REGISTER_BROKER_ARGS_SIZE` bytes and
/// hands that to the ioctl.
#[derive(Debug, Default, Clone, Copy)]
pub struct FbppidRegisterBrokerArgs {
    pub pid: i32,
    pub __pad: u32,
}

/// Argument of the parent PID query.
///
/// Userspace fills in `pid` with `flags == 0` and `__pad == 0`; the kernel
/// writes the current parent PID of `pid` into `ppid`.
///
/// This is the request's content, not its memory layout: the struct is not
/// `#[repr(C)]`. The caller copies the fields, in this order, into a
/// `#[repr(C)]` struct of `FBPPID_QUERY_ARGS_SIZE` bytes, hands that to the
/// ioctl and copies the kernel's answer back.
#[derive(Debug, Default, Clone, Copy)]
pub struct FbppidQueryArgs {
    pub pid: i32,
    pub ppid: i32,
    pub flags: u32,
    pub __pad: u32,
}

/// Size in bytes that the kernel expects of the registration argument
/// (`i32` + `u32` in C layout); it is encoded in the ioctl number.
pub const FBPPID_REGISTER_BROKER_ARGS_SIZE: u32 = 8;

/// Size in bytes that the kernel expects of the query argument
/// (2 × `i32` + 2 × `u32` in C layout); it is encoded in the ioctl number.
pub const FBPPID_QUERY_ARGS_SIZE: u32 = 16;

impl FbppidRegisterBrokerArgs {
    /// The kernel's rules for a registration request.
    pub open spec fn is_well_formed(self) -> bool {
        self.pid > 0 && self.__pad == 0
    }
}

impl FbppidQueryArgs {
    /// The kernel's rules for a query request as userspace sends it.
    pub open spec fn is_well_formed_request(self) -> bool {
        self.pid > 0 && self.flags == 0 && self.__pad == 0
    }
}

/// ioctl number of the broker registration request.
pub fn fbppid_ioc_register_broker() -> (r: libc::c_ulong)
    ensures
        r == ioc_spec(1, FBPPID_IOC_MAGIC, 1, FBPPID_REGISTER_BROKER_ARGS_SIZE),
        r == 0x4008_5001,
{
    let r = _iow(FBPPID_IOC_MAGIC, 1, FBPPID_REGISTER_BROKER_ARGS_SIZE);
    assert(ioc_spec(1, 0x50, 1, 8) == 0x4008_5001) by (bit_vector);
    r
}

/// ioctl number of the parent PID query.
pub fn fbppid_ioc_query_ppid() -> (r: libc::c_ulong)
    ensures
        r == ioc_spec(3, FBPPID_IOC_MAGIC, 2, FBPPID_QUERY_ARGS_SIZE),
        r == 0xC010_5002,
{
    let r = _iowr(FBPPID_IOC_MAGIC, 2, FBPPID_QUERY_ARGS_SIZE);
    assert(ioc_spec(3, 0x50, 2, 16) == 0xC010_5002) by (bit_vector);
    r
}

/// The four fields of an ioctl number can be read back from it, as long as
/// each fits its width (2 bits of direction, 8 of type, 8 of number, 14 of size).
pub proof fn law_ioc_fields_recoverable(dir: u32, ty: u32, nr: u32, size: u32)
    requires
        dir < 4,
        ty < 256,
        nr < 256,
        size < 16384,
    ensures
        (ioc_spec(dir, ty, nr, size) >> 30u32) & 3u32 == dir,
        (ioc_spec(dir, ty, nr, size) >> 8u32) & 0xffu32 == ty,
        ioc_spec(dir, ty, nr, size) & 0xffu32 == nr,
        (ioc_spec(dir, ty, nr, size) >> 16u32) & 0x3fffu32 == size,
{
    let x = ioc_spec(dir, ty, nr, size);
    assert({
        &&& (x >> 30u32) & 3u32 == dir
        &&& (x >> 8u32) & 0xffu32 == ty
        &&& x & 0xffu32 == nr
        &&& (x >> 16u32) & 0x3fffu32 == size
    }) by (bit_vector)
        requires
            x == (dir << 30u32) | (ty << 8u32) | (nr << 0u32) | (size << 16u32),
            dir < 4,
            ty < 256,
            nr < 256,
            size < 16384,
    ;
}

} // verus!
