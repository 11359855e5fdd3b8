use starry::errno::SysError;
use starry::flags::{SignalFlags, SIGKILL, SIGSTOP};
use starry::syscall_imp::signal::{
    check_pending_signals, kill_signal, sigaction_plan, signal_wait_continues, sigprocmask_change,
    sigprocmask_plan,
    sys_rt_sigreturn, sys_rt_sigtimedwait, MaskChange, SigactionPlan,
};

#[test]
fn pending_signal_check_does_nothing() {
    check_pending_signals();
}

#[test]
fn signal_wait_only_while_frozen_and_killed() {
    assert!(signal_wait_continues(true, true));
    assert!(!signal_wait_continues(true, false));
    assert!(!signal_wait_continues(false, true));
    assert!(!signal_wait_continues(false, false));
}

#[test]
fn sigprocmask_changes() {
    let set = SignalFlags::from_bits_retain(0b101);
    assert_eq!(sigprocmask_change(0, 0b101), MaskChange::Block(set));
    assert_eq!(sigprocmask_change(1, 0b101), MaskChange::Unblock(set));
    assert_eq!(sigprocmask_change(2, 0b101), MaskChange::SetMask(set));
    assert_eq!(
        sigprocmask_change(0, SIGKILL),
        MaskChange::Block(SignalFlags::from_bits_retain(SIGKILL))
    );
}

#[test]
fn sigaction_leaves_kill_and_stop_alone() {
    for signum in [SIGKILL as i32, SIGSTOP as i32] {
        for new_ok in [true, false] {
            for old_ok in [true, false] {
                assert_eq!(
                    sigaction_plan(signum, new_ok, old_ok),
                    Ok(SigactionPlan { save_old: false, install_new: false, slot: signum as usize })
                );
            }
        }
    }
}

#[test]
fn sigaction_installs_other_actions() {
    assert_eq!(
        sigaction_plan(10, true, true),
        Ok(SigactionPlan { save_old: true, install_new: true, slot: 10 })
    );
    assert_eq!(
        sigaction_plan(10, true, false),
        Ok(SigactionPlan { save_old: false, install_new: true, slot: 10 })
    );
    // The number is read as a set of signals: 9 is not the bit of SIGKILL.
    assert_eq!(
        sigaction_plan(9, true, false),
        Ok(SigactionPlan { save_old: false, install_new: true, slot: 9 })
    );
    assert_eq!(
        sigaction_plan(0, true, true),
        Ok(SigactionPlan { save_old: true, install_new: true, slot: 0 })
    );
}

#[test]
fn sigaction_without_readable_action_is_invalid() {
    assert_eq!(sigaction_plan(10, false, true), Err(SysError::Inval));
    assert_eq!(sigaction_plan(-1, false, false), Err(SysError::Inval));
}

#[test]
fn unimplemented_signal_calls_succeed() {
    assert_eq!(sys_rt_sigtimedwait(3, 0, 0), Ok(0));
    assert_eq!(sys_rt_sigreturn(), Ok(0));
}

#[test]
fn kill_reads_number_as_signal_set() {
    assert_eq!(kill_signal(9).bits(), 9);
    assert_eq!(kill_signal(256).bits(), SIGKILL);
    assert_eq!(kill_signal(-1).bits(), u64::MAX);
    assert_eq!(kill_signal(0).bits(), 0);
}

#[test]
fn sigprocmask_unreadable_set_changes_nothing() {
    assert_eq!(sigprocmask_plan(0, None), None);
    assert_eq!(sigprocmask_plan(7, None), None);
    assert_eq!(sigprocmask_plan(-1, None), None);
    assert_eq!(
        sigprocmask_plan(2, Some(SIGSTOP)),
        Some(MaskChange::SetMask(SignalFlags::from_bits_retain(SIGSTOP)))
    );
}
