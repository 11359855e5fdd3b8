use starry::ctypes::{
    FluxStatus, SigAction, SignalSet, TimeStat, TimerType, UTIME_NOW, UTIME_OMIT,
};

#[test]
fn utime_constants() {
    assert_eq!(UTIME_NOW, 0x3fffffff);
    assert_eq!(UTIME_OMIT, 0x3ffffffe);
}

#[test]
fn sigaction_default_is_zero() {
    let a = SigAction::default();
    assert_eq!(a.sa_handler, 0);
    assert_eq!(a.sa_flags, 0);
    assert_eq!(a.sa_restorer, 0);
    assert_eq!(a.sa_mask, 0);
}

#[test]
fn signal_set_from_how() {
    assert_eq!(SignalSet::try_from(0), Ok(SignalSet::SigBlock));
    assert_eq!(SignalSet::try_from(1), Ok(SignalSet::SigUnblock));
    assert_eq!(SignalSet::try_from(2), Ok(SignalSet::SigSetmask));
    assert_eq!(SignalSet::try_from(3), Err("Invalid signal set value"));
    assert_eq!(SignalSet::try_from(-1), Err("Invalid signal set value"));
    let via_into: Result<SignalSet, &str> = 2i32.try_into();
    assert_eq!(via_into, Ok(SignalSet::SigSetmask));
}

#[test]
fn flux_status_from_op() {
    let known = [
        (0, FluxStatus::Wait),
        (1, FluxStatus::Wake),
        (3, FluxStatus::Requeue),
        (4, FluxStatus::CmpRequeue),
        (5, FluxStatus::WakeOp),
        (6, FluxStatus::LockPi),
        (7, FluxStatus::UnlockPi),
        (9, FluxStatus::WaitBitset),
        (10, FluxStatus::WakeBitset),
        (128, FluxStatus::WaitPrivate),
        (129, FluxStatus::WakePrivate),
        (-1, FluxStatus::NONE),
    ];
    for (code, status) in known {
        assert_eq!(FluxStatus::try_from(code), Ok(status));
    }
    for code in [2, 8, 11, 127, 130, -2] {
        assert_eq!(FluxStatus::try_from(code), Err("Invalid value for FluxStatus"));
    }
}

#[test]
fn timer_type_codes() {
    assert_eq!(TimerType::try_from(-1), Ok(TimerType::NONE));
    assert_eq!(TimerType::try_from(0), Ok(TimerType::REAL));
    assert_eq!(TimerType::try_from(1), Ok(TimerType::VIRTUAL));
    assert_eq!(TimerType::try_from(2), Ok(TimerType::PROF));
    assert_eq!(TimerType::try_from(3), Err(3));
    assert_eq!(i32::from(TimerType::NONE), -1);
    assert_eq!(i32::from(TimerType::PROF), 2);
}

#[test]
fn timer_type_from_usize() {
    assert_eq!(TimerType::from(0usize), TimerType::REAL);
    assert_eq!(TimerType::from(1usize), TimerType::VIRTUAL);
    assert_eq!(TimerType::from(2usize), TimerType::PROF);
    assert_eq!(TimerType::from(3usize), TimerType::NONE);
    assert_eq!(TimerType::from(usize::MAX), TimerType::NONE);
    for t in [TimerType::NONE, TimerType::REAL, TimerType::VIRTUAL, TimerType::PROF] {
        assert_eq!(TimerType::from(i32::from(t) as usize), t);
    }
}

#[test]
fn timer_type_from_usize_reads_low_bits() {
    assert_eq!(TimerType::from((1usize << 32) + 1), TimerType::VIRTUAL);
    assert_eq!(TimerType::from(1usize << 32), TimerType::REAL);
}

#[test]
fn time_stat_starts_at_zero() {
    assert_eq!(TimeStat::new().output(), (0, 0));
    assert_eq!(TimeStat::default().output(), (0, 0));
}

#[test]
fn time_stat_kernel_entry_counts_user_time() {
    let mut t = TimeStat::new();
    t.switch_into_kernel_mode(100);
    assert_eq!(t.output(), (100, 0));
    t.switch_into_kernel_mode(250);
    assert_eq!(t.output(), (250, 0));
}

#[test]
fn time_stat_user_entry_keeps_clock() {
    let mut t = TimeStat::new();
    t.switch_into_kernel_mode(100);
    t.switch_into_user_mode(150);
    assert_eq!(t.output(), (100, 50));
    // The clock stayed at 100, so the next kernel entry measures from there.
    t.switch_into_kernel_mode(200);
    assert_eq!(t.output(), (200, 50));
}

#[test]
fn time_stat_task_switches() {
    let mut t = TimeStat::new();
    t.switch_from_old_task(40);
    assert_eq!(t.output(), (0, 40));
    t.switch_to_new_task(100);
    assert_eq!(t.output(), (0, 40));
    t.switch_into_kernel_mode(130);
    assert_eq!(t.output(), (30, 40));
}

#[test]
fn time_stat_reset() {
    let mut t = TimeStat::new();
    t.switch_into_kernel_mode(100);
    t.switch_from_old_task(170);
    t.reset(500);
    assert_eq!(t.output(), (0, 0));
    t.switch_into_kernel_mode(600);
    assert_eq!(t.output(), (100, 0));
}

#[test]
fn time_stat_set_timer_reports_running() {
    let mut t = TimeStat::new();
    assert!(t.set_timer(10, 50, 0));
    assert!(t.set_timer(10, 50, 1));
    assert!(t.set_timer(10, 50, 2));
    assert!(!t.set_timer(10, 50, 3));
    assert!(!t.set_timer(10, 50, usize::MAX));
}

#[test]
fn time_stat_timer_does_not_change_accounting() {
    let mut t = TimeStat::new();
    assert!(t.set_timer(1000, 30, 0));
    t.switch_into_kernel_mode(10);
    t.switch_into_user_mode(25);
    t.switch_from_old_task(40);
    t.switch_to_new_task(70);
    t.update_timer(5);
    t.update_timer(1_000_000);
    assert_eq!(t.output(), (10, 45));
}

#[test]
fn flux_status_codes() {
    let codes = [
        (FluxStatus::Wait, 0),
        (FluxStatus::Wake, 1),
        (FluxStatus::Requeue, 2),
        (FluxStatus::CmpRequeue, 3),
        (FluxStatus::WakeOp, 4),
        (FluxStatus::LockPi, 5),
        (FluxStatus::UnlockPi, 6),
        (FluxStatus::WaitBitset, 7),
        (FluxStatus::WakeBitset, 8),
        (FluxStatus::WaitPrivate, 128),
        (FluxStatus::WakePrivate, 129),
        (FluxStatus::NONE, -1),
    ];
    for (status, code) in codes {
        assert_eq!(status.code(), code);
    }
}

#[test]
fn valid_signal_count() {
    assert_eq!(starry::ctypes::VAILD_SIGNAL, 64);
}
