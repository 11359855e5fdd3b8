//! Tasks: resource limits, thread-local storage registers, `clone`,
//! `wait4` and `futex`.
use vstd::prelude::*;
use crate::ctypes::{FluxStatus, WaitStatus, flux_status_spec};
use crate::errno::{SysError, SysResult};
use crate::flags::{WaitFlags, WNOHANG};

verus! {

/// The codes of `arch_prctl`, available on x86_64 only.
#[derive(Debug, Clone, Copy, Eq, PartialEq, Structural)]
pub enum ArchPrctlCode {
    /// Set the GS segment base (0x1001).
    SetGs,
    /// Set the FS segment base (0x1002).
    SetFs,
    /// Get the FS segment base (0x1003).
    GetFs,
    /// Get the GS segment base (0x1004).
    GetGs,
    /// Get the setting of the flag that `SetCpuid` manipulates (0x1011).
    GetCpuid,
    /// Enable (addr != 0) or disable (addr == 0) the cpuid instruction for
    /// the calling thread (0x1012).
    SetCpuid,
}

/// The value of a code as an `i32`.
pub open spec fn arch_prctl_value_spec(c: ArchPrctlCode) -> i32 {
    match c {
        ArchPrctlCode::SetGs => 0x1001i32,
        ArchPrctlCode::SetFs => 0x1002i32,
        ArchPrctlCode::GetFs => 0x1003i32,
        ArchPrctlCode::GetGs => 0x1004i32,
        ArchPrctlCode::GetCpuid => 0x1011i32,
        ArchPrctlCode::SetCpuid => 0x1012i32,
    }
}

impl ArchPrctlCode {
    /// The code as an `i32`; `try_from` reads it back.
    pub fn code(self) -> (r: i32)
        ensures
            r == arch_prctl_value_spec(self),
            arch_prctl_code_spec(r) == Ok::<ArchPrctlCode, i32>(self),
    {
        match self {
            ArchPrctlCode::SetGs => 0x1001,
            ArchPrctlCode::SetFs => 0x1002,
            ArchPrctlCode::GetFs => 0x1003,
            ArchPrctlCode::GetGs => 0x1004,
            ArchPrctlCode::GetCpuid => 0x1011,
            ArchPrctlCode::SetCpuid => 0x1012,
        }
    }
}

/// What `ArchPrctlCode::try_from` gives for a raw code: the code itself
/// when it names no operation.
pub open spec fn arch_prctl_code_spec(value: i32) -> Result<ArchPrctlCode, i32> {
    match value {
        0x1001 => Ok(ArchPrctlCode::SetGs),
        0x1002 => Ok(ArchPrctlCode::SetFs),
        0x1003 => Ok(ArchPrctlCode::GetFs),
        0x1004 => Ok(ArchPrctlCode::GetGs),
        0x1011 => Ok(ArchPrctlCode::GetCpuid),
        0x1012 => Ok(ArchPrctlCode::SetCpuid),
        _ => Err(value),
    }
}

impl TryFrom<i32> for ArchPrctlCode {
    type Error = i32;

    fn try_from(value: i32) -> (r: Result<Self, Self::Error>)
        ensures
            r == arch_prctl_code_spec(value),
    {
        match value {
            0x1001 => Ok(ArchPrctlCode::SetGs),
            0x1002 => Ok(ArchPrctlCode::SetFs),
            0x1003 => Ok(ArchPrctlCode::GetFs),
            0x1004 => Ok(ArchPrctlCode::GetGs),
            0x1011 => Ok(ArchPrctlCode::GetCpuid),
            0x1012 => Ok(ArchPrctlCode::SetCpuid),
            _ => Err(value),
        }
    }
}

impl vstd::std_specs::convert::TryFromSpecImpl<i32> for ArchPrctlCode {
    open spec fn obeys_try_from_spec() -> bool {
        true
    }

    open spec fn try_from_spec(v: i32) -> Result<Self, i32> {
        arch_prctl_code_spec(v)
    }
}

/// The operation that `arch_prctl(code, ..)` performs: an unknown code is
/// refused with `Inval`, `SetCpuid` with `NoDev`; every other code is carried
/// out (`GetCpuid` by returning 0).
pub open spec fn arch_prctl_request_spec(code: i32) -> Result<ArchPrctlCode, SysError> {
    match arch_prctl_code_spec(code) {
        Err(_) => Err(SysError::Inval),
        Ok(ArchPrctlCode::SetCpuid) => Err(SysError::NoDev),
        Ok(c) => Ok(c),
    }
}

/// Checks the code of `arch_prctl` and tells which operation to carry out.
pub fn arch_prctl_request(code: i32) -> (r: Result<ArchPrctlCode, SysError>)
    ensures
        r == arch_prctl_request_spec(code),
{
    match ArchPrctlCode::try_from(code) {
        Err(_) => Err(SysError::Inval),
        Ok(ArchPrctlCode::SetCpuid) => Err(SysError::NoDev),
        Ok(c) => Ok(c),
    }
}

/// Law: as on Linux, setting the FS or GS segment base never fails.
pub proof fn law_segment_base_writes_succeed(code: i32)
    requires
        code == 0x1001 || code == 0x1002,
    ensures
        arch_prctl_request_spec(code) matches Ok(c) && (c == ArchPrctlCode::SetGs || c
            == ArchPrctlCode::SetFs),
{
}

/// What `set_tid_address` returns: it always succeeds, with the caller's
/// task id.
pub fn set_tid_address_result(task_id: u64) -> (r: SysResult)
    ensures
        r == Ok::<isize, SysError>(task_id as isize),
{
    Ok(task_id as isize)
}

/// Resource: the size of the data segment.
pub const RLIMIT_DATA: u32 = 2;

/// Resource: the size of the stack.
pub const RLIMIT_STACK: u32 = 3;

/// Resource: the number of open files.
pub const RLIMIT_NOFILE: u32 = 7;

/// A `struct rlimit`.
#[derive(Debug, Clone, Copy, PartialEq, Eq, Structural)]
pub struct Rlimit {
    /// The soft limit.
    pub rlim_cur: u64,
    /// The hard limit.
    pub rlim_max: u64,
}

/// Whether `prlimit64` knows the resource: data, stack or open files.
pub open spec fn is_known_resource(resource: i32) -> bool {
    let r: u32 = resource as u32;
    r == RLIMIT_DATA || r == RLIMIT_STACK || r == RLIMIT_NOFILE
}

/// What `prlimit64` does once it has checked the resource.
#[derive(Debug, Clone, Copy, PartialEq, Eq, Structural)]
pub struct PrlimitPlan {
    /// Set the limit on open files from the caller's new limit.
    pub set_nofile: bool,
    /// Report the limit on open files in the caller's old limit.
    pub report_nofile: bool,
}

/// What `prlimit64(pid, resource, new_limit, old_limit)` does, given
/// whether `new_limit` can be read and `old_limit` written.
pub open spec fn prlimit_plan_spec(
    resource: i32,
    new_limit_readable: bool,
    old_limit_writable: bool,
) -> Result<PrlimitPlan, SysError> {
    if (new_limit_readable || old_limit_writable) && !is_known_resource(resource) {
        Err(SysError::Inval)
    } else {
        Ok(
            PrlimitPlan {
                set_nofile: new_limit_readable && resource as u32 == RLIMIT_NOFILE,
                report_nofile: old_limit_writable && resource as u32 == RLIMIT_NOFILE,
            },
        )
    }
}

/// The plan of `prlimit64`: a limit to read or write for an unknown resource
/// is refused with `Inval`; of the known ones only the limit on open files
/// is kept, the others are accepted and ignored.
pub fn prlimit_plan(resource: i32, new_limit_readable: bool, old_limit_writable: bool) -> (r: Result<
    PrlimitPlan,
    SysError,
>)
    ensures
        r == prlimit_plan_spec(resource, new_limit_readable, old_limit_writable),
{
    let res: u32 = resource as u32;
    let mut plan = PrlimitPlan { set_nofile: false, report_nofile: false };
    if new_limit_readable {
        if res == RLIMIT_DATA {
        } else if res == RLIMIT_STACK {
        } else if res == RLIMIT_NOFILE {
            plan.set_nofile = true;
        } else {
            return Err(SysError::Inval);
        }
    }
    if old_limit_writable {
        if res == RLIMIT_DATA {
        } else if res == RLIMIT_STACK {
        } else if res == RLIMIT_NOFILE {
            plan.report_nofile = true;
        } else {
            return Err(SysError::Inval);
        }
    }
    Ok(plan)
}

/// The limit on open files as `prlimit64` reports it: soft and hard limit
/// are both the current limit.
pub fn nofile_limit_report(limit: u64) -> (r: Rlimit)
    ensures
        r == (Rlimit { rlim_cur: limit, rlim_max: limit }),
{
    Rlimit { rlim_cur: limit, rlim_max: limit }
}

/// The stack of the new task of `clone`: none when `user_stack` is 0,
/// which keeps the caller's.
pub fn clone_stack(user_stack: usize) -> (r: Option<usize>)
    ensures
        r == (if user_stack == 0 {
            None
        } else {
            Some(user_stack)
        }),
{
    if user_stack == 0 {
        None
    } else {
        Some(user_stack)
    }
}

/// What `clone` returns: the id of the new task, or `NoMem` when it could
/// not be created.
pub fn clone_outcome(new_task_id: Option<u64>) -> (r: SysResult)
    ensures
        r == (match new_task_id {
            Some(id) => Ok(id as isize),
            None => Err(SysError::NoMem),
        }),
{
    match new_task_id {
        Some(id) => Ok(id as isize),
        None => Err(SysError::NoMem),
    }
}

/// What a blocking system call does after one look at the kernel's state.
#[derive(Debug, Clone, Copy, PartialEq, Eq)]
pub enum WaitStep {
    /// Return this result to the caller.
    Return(SysResult),
    /// Yield the processor and look again.
    Yield,
}

/// What `wait4` does with the options `options` after one look for the
/// child: `answer` is the pid of a child that has exited, or why there is
/// none.
pub open spec fn wait4_step_spec(options: WaitFlags, answer: Result<u64, WaitStatus>) -> WaitStep {
    match answer {
        Ok(pid) => WaitStep::Return(Ok(pid as isize)),
        Err(WaitStatus::NotExist) => WaitStep::Return(Err(SysError::Child)),
        Err(_) => if options.bits_spec() & WNOHANG == WNOHANG {
            WaitStep::Return(Ok(0))
        } else {
            WaitStep::Yield
        },
    }
}

/// One round of `wait4`: an exited child is reported by its pid, a missing
/// one with `Child`; for a running child the caller returns 0 with
/// `WNOHANG`, and yields and looks again without it. The kernel never
/// answers `Exited` here.
pub fn wait4_step(options: WaitFlags, answer: Result<u64, WaitStatus>) -> (r: WaitStep)
    requires
        answer != Err::<u64, WaitStatus>(WaitStatus::Exited),
    ensures
        r == wait4_step_spec(options, answer),
{
    match answer {
        Ok(pid) => WaitStep::Return(Ok(pid as isize)),
        Err(status) => match status {
            WaitStatus::NotExist => WaitStep::Return(Err(SysError::Child)),
            WaitStatus::Running => {
                if options.contains(WaitFlags::from_bits_retain(WNOHANG)) {
                    WaitStep::Return(Ok(0))
                } else {
                    WaitStep::Yield
                }
            },
            WaitStatus::Exited => WaitStep::Yield,
        },
    }
}

/// Law: with `WNOHANG`, `wait4` never yields: every answer is returned at once.
pub proof fn law_nohang_never_blocks(options: WaitFlags, answer: Result<u64, WaitStatus>)
    requires
        options.bits_spec() & WNOHANG == WNOHANG,
    ensures
        wait4_step_spec(options, answer) is Return,
{
}

/// What `execve` returns: it comes back only when the new program could not
/// be started, and then reports `NoSys`.
pub fn execve_failed() -> (r: SysResult)
    ensures
        r == Err::<isize, SysError>(SysError::NoSys),
{
    Err(SysError::NoSys)
}

/// The operations of `futex` that the kernel carries out.
#[derive(Debug, Clone, Copy, PartialEq, Eq, Structural)]
pub enum FutexOp {
    /// Wait while the futex word holds the expected value.
    Wait,
    /// Wake the waiters.
    Wake,
}

/// What `futex` does for an operation.
pub open spec fn futex_op_spec(status: FluxStatus) -> Result<FutexOp, SysError> {
    match status {
        FluxStatus::WaitPrivate => Ok(FutexOp::Wait),
        FluxStatus::WakePrivate => Ok(FutexOp::Wake),
        _ => Err(SysError::NoSys),
    }
}

/// The operation of `futex(.., op, ..)`: only the private wait and wake are
/// carried out, every other known operation is refused with `NoSys`; `op`
/// must be a known operation code.
pub fn futex_op(op: usize) -> (r: Result<FutexOp, SysError>)
    requires
        flux_status_spec(op as i32) is Ok,
    ensures
        r == futex_op_spec(flux_status_spec(op as i32)->Ok_0),
{
    match FluxStatus::try_from(op as i32).unwrap() {
        FluxStatus::WaitPrivate => Ok(FutexOp::Wait),
        FluxStatus::WakePrivate => Ok(FutexOp::Wake),
        _ => Err(SysError::NoSys),
    }
}

/// Whether a private `futex` wait blocks: the futex word holds `val`, read
/// as an `i32`; otherwise the call returns 0 at once.
pub fn futex_must_wait(current: i32, val: usize) -> (r: bool)
    ensures
        r == (current == val as i32),
{
    current == val as i32
}

/// One round of a blocked private `futex` wait: it yields while the kernel
/// still has the caller queued on the futex, and returns 0 once it has not.
pub fn futex_wait_step(still_queued: bool) -> (r: WaitStep)
    ensures
        r == (if still_queued {
            WaitStep::Yield
        } else {
            WaitStep::Return(Ok(0))
        }),
{
    if still_queued {
        WaitStep::Yield
    } else {
        WaitStep::Return(Ok(0))
    }
}

/// Law: every operation that `arch_prctl` carries out is the one whose code
/// was asked for, and every known code but `SetCpuid` is carried out.
pub proof fn law_arch_prctl_does_what_is_asked(code: i32, c: ArchPrctlCode)
    ensures
        arch_prctl_request_spec(code) matches Ok(d) ==> arch_prctl_value_spec(d) == code,
        c != ArchPrctlCode::SetCpuid ==> arch_prctl_request_spec(arch_prctl_value_spec(c))
            == Ok::<ArchPrctlCode, SysError>(c),
        arch_prctl_request_spec(code) is Err <==> (code != 0x1001 && code != 0x1002 && code
            != 0x1003 && code != 0x1004 && code != 0x1011),
{
}

/// Law: `prlimit64` applies a readable new limit on open files whether or
/// not the old limit is asked for, reports the limit on open files exactly
/// when the old limit can be written, and touches no limit for any other
/// resource.
pub proof fn law_prlimit_open_files(resource: i32, new_limit_readable: bool, old_limit_writable: bool)
    ensures
        prlimit_plan_spec(resource, new_limit_readable, old_limit_writable) matches Ok(p) ==> {
            &&& p.set_nofile == (new_limit_readable && resource as u32 == RLIMIT_NOFILE)
            &&& p.report_nofile == (old_limit_writable && resource as u32 == RLIMIT_NOFILE)
        },
        resource as u32 == RLIMIT_NOFILE ==> prlimit_plan_spec(
            resource,
            new_limit_readable,
            old_limit_writable,
        ) == Ok::<PrlimitPlan, SysError>(
            PrlimitPlan { set_nofile: new_limit_readable, report_nofile: old_limit_writable },
        ),
        prlimit_plan_spec(resource, new_limit_readable, old_limit_writable) is Err <==> (
        (new_limit_readable || old_limit_writable) && resource as u32 != RLIMIT_DATA
            && resource as u32 != RLIMIT_STACK && resource as u32 != RLIMIT_NOFILE),
{
}

/// Law: a missing child is reported as `Child` whatever the options, and an
/// exited child by its pid whatever the options; only a running child
/// depends on `WNOHANG`.
pub proof fn law_wait4_answers(options: WaitFlags, pid: u64)
    ensures
        wait4_step_spec(options, Err(WaitStatus::NotExist)) == WaitStep::Return(
            Err(SysError::Child),
        ),
        wait4_step_spec(options, Ok(pid)) == WaitStep::Return(Ok(pid as isize)),
        wait4_step_spec(options, Err(WaitStatus::Running)) == (if options.bits_spec() & WNOHANG
            == WNOHANG {
            WaitStep::Return(Ok(0))
        } else {
            WaitStep::Yield
        }),
{
}

/// Law: of the known futex operations, only code 128 waits and only code
/// 129 wakes; every other one is refused with `NoSys`.
pub proof fn law_futex_ops(op: i32)
    requires
        flux_status_spec(op) is Ok,
    ensures
        futex_op_spec(flux_status_spec(op)->Ok_0) == Ok::<FutexOp, SysError>(FutexOp::Wait) <==> op
            == 128,
        futex_op_spec(flux_status_spec(op)->Ok_0) == Ok::<FutexOp, SysError>(FutexOp::Wake) <==> op
            == 129,
        op != 128 && op != 129 ==> futex_op_spec(flux_status_spec(op)->Ok_0) == Err::<
            FutexOp,
            SysError,
        >(SysError::NoSys),
{
}

} // verus!
