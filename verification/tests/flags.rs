use starry::flags::{
    CloneFlags, SignalFlags, WaitFlags, CLONE_ALL, CLONE_NEWPID, CLONE_THREAD, CLONE_VM, SIGHUP,
    SIGINT, SIGKILL, SIGRTMAX, SIGSTOP, WAIT_ALL, WALL, WCLONE, WCONTINUED, WIMTRACED, WNOHANG,
};

#[test]
fn signal_flags_accept_every_bit_pattern() {
    for bits in [0u64, 1, SIGKILL, SIGSTOP | SIGINT, SIGRTMAX, u64::MAX] {
        let f = SignalFlags::from_bits(bits).expect("every signal bit is named");
        assert_eq!(f.bits(), bits);
    }
}

#[test]
fn signal_flag_values() {
    assert_eq!(SIGHUP, 1);
    assert_eq!(SIGKILL, 256);
    assert_eq!(SIGSTOP, 1 << 18);
    assert_eq!(SIGRTMAX, 1 << 63);
}

#[test]
fn signal_insert_then_contains() {
    let mut mask = SignalFlags::from_bits_retain(SIGHUP);
    let kill = SignalFlags::from_bits_retain(SIGKILL);
    assert!(!mask.contains(kill));
    mask.insert(kill);
    assert!(mask.contains(kill));
    assert!(mask.contains(SignalFlags::from_bits_retain(SIGHUP)));
    assert_eq!(mask.bits(), SIGHUP | SIGKILL);
}

#[test]
fn signal_remove_leaves_no_trace() {
    let mut mask = SignalFlags::from_bits_retain(SIGHUP | SIGINT | SIGKILL);
    let gone = SignalFlags::from_bits_retain(SIGINT | SIGSTOP);
    mask.remove(gone);
    assert!(!mask.intersects(gone));
    assert_eq!(mask.bits(), SIGHUP | SIGKILL);
}

#[test]
fn signal_empty_and_all() {
    assert!(SignalFlags::empty().is_empty());
    assert_eq!(SignalFlags::all().bits(), u64::MAX);
    assert!(SignalFlags::all().contains(SignalFlags::from_bits_retain(SIGSTOP)));
    assert_eq!(SignalFlags::from_bits_truncate(12345).bits(), 12345);
    assert!(SignalFlags::empty().contains(SignalFlags::empty()));
    assert!(!SignalFlags::all().intersects(SignalFlags::empty()));
}

#[test]
fn signal_flags_equal_by_bits() {
    assert_eq!(SignalFlags::from_bits_retain(SIGKILL), SignalFlags::from_bits(256).unwrap());
    assert_ne!(SignalFlags::from_bits_retain(SIGKILL), SignalFlags::from_bits_retain(SIGSTOP));
}

#[test]
fn wait_flags_reject_unknown_bits() {
    assert_eq!(WAIT_ALL, WNOHANG | WIMTRACED | WCONTINUED | WALL | WCLONE);
    assert_eq!(WaitFlags::from_bits(WNOHANG).unwrap().bits(), 1);
    assert_eq!(WaitFlags::from_bits(WNOHANG | WALL).unwrap().bits(), 1 | (1 << 30));
    assert!(WaitFlags::from_bits(0).is_some());
    assert!(WaitFlags::from_bits(1 << 2).is_none());
    assert!(WaitFlags::from_bits(WNOHANG | (1 << 29)).is_none());
}

#[test]
fn wait_flags_truncate_keeps_named_bits() {
    let t = WaitFlags::from_bits_truncate(u32::MAX);
    assert_eq!(t.bits(), WAIT_ALL);
    assert_eq!(t.bits(), 0xc000_000b);
    assert!(WaitFlags::from_bits(t.bits()).is_some());
    assert!(t.contains(WaitFlags::from_bits_retain(WNOHANG)));
}

#[test]
fn wait_flags_insert_remove() {
    let mut f = WaitFlags::empty();
    f.insert(WaitFlags::from_bits_retain(WNOHANG));
    assert!(f.contains(WaitFlags::from_bits_retain(WNOHANG)));
    f.remove(WaitFlags::from_bits_retain(WNOHANG));
    assert!(f.is_empty());
    assert_eq!(WaitFlags::all().bits(), WAIT_ALL);
}

#[test]
fn clone_flags_named_bits() {
    assert_eq!(CLONE_ALL, 0x21ff_ff80);
    let f = CloneFlags::from_bits(CLONE_VM | CLONE_THREAD | CLONE_NEWPID).unwrap();
    assert!(f.contains(CloneFlags::from_bits_retain(CLONE_THREAD)));
    assert!(f.intersects(CloneFlags::from_bits_retain(CLONE_VM | 1)));
    assert!(CloneFlags::from_bits(1 << 25).is_none());
    assert!(CloneFlags::from_bits(0x11).is_none());
    assert_eq!(CloneFlags::from_bits_truncate(u32::MAX).bits(), CLONE_ALL);
}

#[test]
fn signal_set_operations() {
    let a = SignalFlags::from_bits_retain(SIGHUP | SIGINT);
    let b = SignalFlags::from_bits_retain(SIGINT | SIGKILL);
    assert_eq!(a.union(b).bits(), SIGHUP | SIGINT | SIGKILL);
    assert_eq!(a.intersection(b).bits(), SIGINT);
    assert_eq!(a.difference(b).bits(), SIGHUP);
    assert_eq!(a.symmetric_difference(b).bits(), SIGHUP | SIGKILL);
    assert_eq!(a.complement().bits(), !(SIGHUP | SIGINT));
    assert_eq!((a | b).bits(), SIGHUP | SIGINT | SIGKILL);
    assert_eq!((a & b).bits(), SIGINT);
    assert_eq!((a - b).bits(), SIGHUP);
    assert_eq!((a ^ b).bits(), SIGHUP | SIGKILL);
    assert_eq!((!a).bits(), !(SIGHUP | SIGINT));
}

#[test]
fn signal_toggle_and_set() {
    let mut m = SignalFlags::from_bits_retain(SIGHUP);
    m.toggle(SignalFlags::from_bits_retain(SIGHUP | SIGKILL));
    assert_eq!(m.bits(), SIGKILL);
    m.set(SignalFlags::from_bits_retain(SIGSTOP), true);
    assert_eq!(m.bits(), SIGKILL | SIGSTOP);
    m.set(SignalFlags::from_bits_retain(SIGKILL), false);
    assert_eq!(m.bits(), SIGSTOP);
}

#[test]
fn wait_and_clone_complements_keep_named_bits() {
    let w = WaitFlags::from_bits_retain(WNOHANG);
    assert_eq!((!w).bits(), WAIT_ALL & !WNOHANG);
    assert_eq!(w.complement().bits(), WIMTRACED | WCONTINUED | WALL | WCLONE);
    assert_eq!((w | WaitFlags::from_bits_retain(WALL)).bits(), WNOHANG | WALL);
    let c = CloneFlags::from_bits_retain(CLONE_VM | CLONE_THREAD);
    assert_eq!((c - CloneFlags::from_bits_retain(CLONE_VM)).bits(), CLONE_THREAD);
    assert_eq!((!c).bits(), CLONE_ALL & !(CLONE_VM | CLONE_THREAD));
    let mut t = CloneFlags::empty();
    t.toggle(c);
    assert_eq!(t, c);
}
