use starry::ctypes::WaitStatus;
use starry::errno::SysError;
use starry::flags::{WaitFlags, WALL, WNOHANG};
use starry::syscall_imp::task::thread::{
    arch_prctl_request, clone_outcome, execve_failed, clone_stack, futex_must_wait, futex_op, futex_wait_step,
    nofile_limit_report, prlimit_plan, set_tid_address_result, wait4_step, ArchPrctlCode, FutexOp,
    PrlimitPlan, Rlimit, WaitStep, RLIMIT_DATA, RLIMIT_NOFILE, RLIMIT_STACK,
};

#[test]
fn arch_prctl_codes() {
    assert_eq!(ArchPrctlCode::try_from(0x1001), Ok(ArchPrctlCode::SetGs));
    assert_eq!(ArchPrctlCode::try_from(0x1002), Ok(ArchPrctlCode::SetFs));
    assert_eq!(ArchPrctlCode::try_from(0x1003), Ok(ArchPrctlCode::GetFs));
    assert_eq!(ArchPrctlCode::try_from(0x1004), Ok(ArchPrctlCode::GetGs));
    assert_eq!(ArchPrctlCode::try_from(0x1011), Ok(ArchPrctlCode::GetCpuid));
    assert_eq!(ArchPrctlCode::try_from(0x1012), Ok(ArchPrctlCode::SetCpuid));
    assert_eq!(ArchPrctlCode::try_from(0x1005), Err(0x1005));
}

#[test]
fn arch_prctl_requests() {
    assert_eq!(arch_prctl_request(0x1002), Ok(ArchPrctlCode::SetFs));
    assert_eq!(arch_prctl_request(0x1001), Ok(ArchPrctlCode::SetGs));
    assert_eq!(arch_prctl_request(0x1011), Ok(ArchPrctlCode::GetCpuid));
    assert_eq!(arch_prctl_request(0x1012), Err(SysError::NoDev));
    assert_eq!(arch_prctl_request(0), Err(SysError::Inval));
    assert_eq!(arch_prctl_request(-1), Err(SysError::Inval));
}

#[test]
fn set_tid_address_always_succeeds() {
    assert_eq!(set_tid_address_result(42), Ok(42));
}

#[test]
fn rlimit_values() {
    assert_eq!((RLIMIT_DATA, RLIMIT_STACK, RLIMIT_NOFILE), (2, 3, 7));
}

#[test]
fn prlimit_known_resources() {
    assert_eq!(
        prlimit_plan(7, true, true),
        Ok(PrlimitPlan { set_nofile: true, report_nofile: true })
    );
    assert_eq!(
        prlimit_plan(7, false, true),
        Ok(PrlimitPlan { set_nofile: false, report_nofile: true })
    );
    assert_eq!(
        prlimit_plan(2, true, true),
        Ok(PrlimitPlan { set_nofile: false, report_nofile: false })
    );
    assert_eq!(
        prlimit_plan(3, false, true),
        Ok(PrlimitPlan { set_nofile: false, report_nofile: false })
    );
}

#[test]
fn prlimit_unknown_resource() {
    assert_eq!(prlimit_plan(8, true, false), Err(SysError::Inval));
    assert_eq!(prlimit_plan(8, false, true), Err(SysError::Inval));
    assert_eq!(prlimit_plan(-1, true, true), Err(SysError::Inval));
    assert_eq!(
        prlimit_plan(8, false, false),
        Ok(PrlimitPlan { set_nofile: false, report_nofile: false })
    );
}

#[test]
fn nofile_report() {
    assert_eq!(nofile_limit_report(1024), Rlimit { rlim_cur: 1024, rlim_max: 1024 });
}

#[test]
fn clone_helpers() {
    assert_eq!(clone_stack(0), None);
    assert_eq!(clone_stack(0x8000), Some(0x8000));
    assert_eq!(clone_outcome(Some(17)), Ok(17));
    assert_eq!(clone_outcome(None), Err(SysError::NoMem));
}

#[test]
fn wait4_steps() {
    let block = WaitFlags::from_bits(WALL).unwrap();
    let nohang = WaitFlags::from_bits(WNOHANG).unwrap();
    assert_eq!(wait4_step(block, Ok(5)), WaitStep::Return(Ok(5)));
    assert_eq!(wait4_step(nohang, Ok(5)), WaitStep::Return(Ok(5)));
    assert_eq!(
        wait4_step(block, Err(WaitStatus::NotExist)),
        WaitStep::Return(Err(SysError::Child))
    );
    assert_eq!(wait4_step(block, Err(WaitStatus::Running)), WaitStep::Yield);
    assert_eq!(wait4_step(nohang, Err(WaitStatus::Running)), WaitStep::Return(Ok(0)));
}

#[test]
fn futex_ops() {
    assert_eq!(futex_op(128), Ok(FutexOp::Wait));
    assert_eq!(futex_op(129), Ok(FutexOp::Wake));
    assert_eq!(futex_op(0), Err(SysError::NoSys));
    assert_eq!(futex_op(1), Err(SysError::NoSys));
    assert_eq!(futex_op(usize::MAX), Err(SysError::NoSys));
}

#[test]
fn futex_wait_decisions() {
    assert!(futex_must_wait(5, 5));
    assert!(!futex_must_wait(5, 6));
    assert!(futex_must_wait(-1, usize::MAX));
    assert_eq!(futex_wait_step(true), WaitStep::Yield);
    assert_eq!(futex_wait_step(false), WaitStep::Return(Ok(0)));
}

#[test]
fn arch_prctl_code_values() {
    for (c, v) in [
        (ArchPrctlCode::SetGs, 0x1001),
        (ArchPrctlCode::SetFs, 0x1002),
        (ArchPrctlCode::GetFs, 0x1003),
        (ArchPrctlCode::GetGs, 0x1004),
        (ArchPrctlCode::GetCpuid, 0x1011),
        (ArchPrctlCode::SetCpuid, 0x1012),
    ] {
        assert_eq!(c.code(), v);
        assert_eq!(ArchPrctlCode::try_from(v), Ok(c));
    }
}

#[test]
fn execve_failure_is_nosys() {
    assert_eq!(execve_failed(), Err(SysError::NoSys));
}
