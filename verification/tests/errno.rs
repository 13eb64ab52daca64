use fbppid_rs::errno::should_fallback;
use fbppid_rs::UnavailableErrnos;

#[test]
fn errno_table_is_libcs() {
    let codes = UnavailableErrnos::from_libc();
    assert_eq!(codes.enoent, libc::ENOENT);
    assert_eq!(codes.enodev, libc::ENODEV);
    assert_eq!(codes.enotty, libc::ENOTTY);
    assert_eq!(codes.eopnotsupp, libc::EOPNOTSUPP);
}

#[test]
fn unavailable_interface_errnos_fall_back() {
    let codes = UnavailableErrnos::from_libc();
    assert!(should_fallback(Some(libc::ENOENT), &codes));
    assert!(should_fallback(Some(libc::ENODEV), &codes));
    assert!(should_fallback(Some(libc::ENOTTY), &codes));
    assert!(should_fallback(Some(libc::EOPNOTSUPP), &codes));
}

#[test]
fn other_errnos_do_not_fall_back() {
    let codes = UnavailableErrnos::from_libc();
    assert!(!should_fallback(None, &codes));
    assert!(!should_fallback(Some(libc::EPERM), &codes));
    assert!(!should_fallback(Some(libc::EACCES), &codes));
    assert!(!should_fallback(Some(libc::EINVAL), &codes));
    assert!(!should_fallback(Some(libc::EBUSY), &codes));
    assert!(!should_fallback(Some(0), &codes));
    assert!(!should_fallback(Some(-2), &codes));
}

#[test]
fn fallback_follows_the_given_numbers() {
    let codes = UnavailableErrnos { enoent: 2, enodev: 19, enotty: 25, eopnotsupp: 122 };
    assert!(should_fallback(Some(122), &codes));
    assert!(!should_fallback(Some(95), &codes));
}
