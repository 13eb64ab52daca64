use fbppid_rs::fbppid_uapi::{
    _ioc, _iow, _iowr, fbppid_ioc_query_ppid, fbppid_ioc_register_broker, FBPPID_QUERY_ARGS_SIZE,
    FBPPID_REGISTER_BROKER_ARGS_SIZE,
};
use fbppid_rs::{FbppidQueryArgs, FbppidRegisterBrokerArgs};

#[test]
fn struct_sizes_match_kernel_expectation() {
    assert_eq!(core::mem::size_of::<FbppidRegisterBrokerArgs>(), 8);
    assert_eq!(core::mem::size_of::<FbppidQueryArgs>(), 16);
}

#[test]
fn ioctl_values_match_expected() {
    assert_eq!(fbppid_ioc_register_broker(), 0x4008_5001);
    assert_eq!(fbppid_ioc_query_ppid(), 0xC010_5002);
}

#[test]
fn encoded_sizes_are_the_struct_sizes() {
    assert_eq!(
        FBPPID_REGISTER_BROKER_ARGS_SIZE as usize,
        core::mem::size_of::<FbppidRegisterBrokerArgs>()
    );
    assert_eq!(FBPPID_QUERY_ARGS_SIZE as usize, core::mem::size_of::<FbppidQueryArgs>());
}

#[test]
fn ioctl_fields_decode_back() {
    let reg = fbppid_ioc_register_broker() as u32;
    assert_eq!(reg >> 30, 1);
    assert_eq!((reg >> 8) & 0xff, u32::from(b'P'));
    assert_eq!(reg & 0xff, 1);
    assert_eq!((reg >> 16) & 0x3fff, 8);
    let query = fbppid_ioc_query_ppid() as u32;
    assert_eq!(query >> 30, 3);
    assert_eq!((query >> 8) & 0xff, u32::from(b'P'));
    assert_eq!(query & 0xff, 2);
    assert_eq!((query >> 16) & 0x3fff, 16);
}

#[test]
fn default_arguments_are_zero() {
    let reg = FbppidRegisterBrokerArgs::default();
    assert_eq!((reg.pid, reg.__pad), (0, 0));
    let q = FbppidQueryArgs::default();
    assert_eq!((q.pid, q.ppid, q.flags, q.__pad), (0, 0, 0, 0));
}

#[test]
fn ioc_packs_fields() {
    assert_eq!(_ioc(1, 0x50, 1, 8), 0x4008_5001);
    assert_eq!(_iow(0x50, 1, 8), 0x4008_5001);
    assert_eq!(_iowr(0x50, 2, 16), 0xC010_5002);
    let r = _ioc(2, 0xab, 0xcd, 0x1234);
    assert_eq!((r >> 30) & 3, 2);
    assert_eq!((r >> 8) & 0xff, 0xab);
    assert_eq!(r & 0xff, 0xcd);
    assert_eq!((r >> 16) & 0x3fff, 0x1234);
}
