use starry::syscall_imp::socket::sys_setsockopt;
use starry::syscall_imp::sys::{
    is_dummy_path, sys_getegid, sys_geteuid, sys_getuid, utimensat_target, utimensat_times,
    Timespec, UtimeTarget, UtsName,
};

#[test]
fn identity_calls() {
    assert_eq!(sys_getuid(), Ok(0));
    assert_eq!(sys_geteuid(), Ok(1000));
    assert_eq!(sys_getegid(), Ok(1000));
}

#[test]
fn setsockopt_is_accepted() {
    assert_eq!(sys_setsockopt(3, 1, 2, 0x1000, 4), Ok(0));
}

fn padded(s: &str) -> [u8; 65] {
    let mut a = [0u8; 65];
    a[..s.len()].copy_from_slice(s.as_bytes());
    a
}

#[test]
fn uts_field_is_zero_padded() {
    let f = UtsName::from_str("abc");
    assert_eq!(&f[..4], &[97, 98, 99, 0]);
    assert!(f[3..].iter().all(|&b| b == 0));
    assert_eq!(UtsName::from_str(""), [0u8; 65]);
    let full = "x".repeat(65);
    assert_eq!(UtsName::from_str(&full), [b'x'; 65]);
}

#[test]
fn uts_name_default() {
    let u = UtsName::default();
    assert_eq!(u.sysname, padded("Starry"));
    assert_eq!(u.nodename, padded("Starry - machine[0]"));
    assert_eq!(u.release, padded("10.0.0"));
    assert_eq!(u.version, padded("10.0.0"));
    assert_eq!(u.machine, padded("10.0.0"));
    assert_eq!(u.domainname, padded("https://github.com/BattiestStone4/Starry-On-ArceOS"));
}

#[test]
fn utimensat_explicit_times() {
    let times = [Timespec { tv_sec: 7, tv_nsec: 8 }, Timespec { tv_sec: 9, tv_nsec: 10 }];
    assert_eq!(utimensat_times(1_500_000_123, times), ([7, 8], [9, 10]));
}

#[test]
fn utimensat_omit_and_now() {
    let omit = 0x3ffffffe;
    let now = 0x3fffffff;
    let times = [Timespec { tv_sec: 7, tv_nsec: omit }, Timespec { tv_sec: 9, tv_nsec: now }];
    assert_eq!(utimensat_times(1_500_000_123, times), ([1, -1], [1, 500_000_123]));
    let times = [Timespec { tv_sec: 7, tv_nsec: now }, Timespec { tv_sec: 9, tv_nsec: omit }];
    assert_eq!(utimensat_times(42, times), ([0, 42], [0, -1]));
}

#[test]
fn utimensat_negative_clock_rounds_toward_zero() {
    let now = 0x3fffffff;
    let times = [Timespec { tv_sec: 0, tv_nsec: now }, Timespec { tv_sec: 0, tv_nsec: now }];
    assert_eq!(
        utimensat_times(-1_500_000_000, times),
        ([-1, -500_000_000], [-1, -500_000_000])
    );
}

#[test]
fn dummy_path() {
    assert!(is_dummy_path("/dev/null/invalid"));
    assert!(!is_dummy_path("/dev/null"));
    assert!(!is_dummy_path("/dev/null/invalie"));
    assert!(!is_dummy_path("/dev/null/invalid/"));
    assert!(!is_dummy_path(""));
}

#[test]
fn utimensat_targets() {
    assert_eq!(utimensat_target(-100, true, true), UtimeTarget::Path);
    assert_eq!(utimensat_target(3, true, true), UtimeTarget::Path);
    assert_eq!(utimensat_target(3, true, false), UtimeTarget::Fd);
    assert_eq!(utimensat_target(0, true, false), UtimeTarget::Fd);
    assert_eq!(utimensat_target(-1, true, false), UtimeTarget::Nothing);
}

#[test]
fn utimensat_unreadable_times_do_nothing() {
    assert_eq!(utimensat_target(3, false, true), UtimeTarget::Nothing);
    assert_eq!(utimensat_target(3, false, false), UtimeTarget::Nothing);
    assert_eq!(utimensat_target(-1, false, true), UtimeTarget::Nothing);
}
