//! Signal masks, signal actions and signal delivery.
use vstd::prelude::*;
use crate::ctypes::{SignalSet, signal_set_spec};
use crate::errno::{SysError, SysResult};
use crate::flags::{SignalFlags, SIGKILL, SIGSTOP};

verus! {

broadcast use {SignalFlags::lemma_eq_by_bits, SignalFlags::lemma_retain_bits};

/// Looks for pending signals to deliver; the kernel keeps none yet, so
/// there is nothing to do.
pub fn check_pending_signals() {
}

/// Whether a task that handles its signals must yield and look again: only
/// while it is both frozen and killed.
pub fn signal_wait_continues(frozen: bool, killed: bool) -> (r: bool)
    ensures
        r == (frozen && killed),
{
    !(!frozen || !killed)
}

/// How `rt_sigprocmask` changes the signal mask of the caller.
#[derive(Debug, Clone, Copy, PartialEq, Eq, Structural)]
pub enum MaskChange {
    /// Add these signals to the mask.
    Block(SignalFlags),
    /// Take these signals out of the mask.
    Unblock(SignalFlags),
    /// Make these signals the mask.
    SetMask(SignalFlags),
}

/// The change that `rt_sigprocmask(how, set)` asks for.
pub open spec fn mask_change_spec(how: SignalSet, set: u64) -> MaskChange {
    match how {
        SignalSet::SigBlock => MaskChange::Block(SignalFlags::from_bits_retain_spec(set)),
        SignalSet::SigUnblock => MaskChange::Unblock(SignalFlags::from_bits_retain_spec(set)),
        SignalSet::SigSetmask => MaskChange::SetMask(SignalFlags::from_bits_retain_spec(set)),
    }
}

/// The change of the signal mask that `rt_sigprocmask` makes when it can
/// read the new set `set`; `how` must be one of the three known values.
pub fn sigprocmask_change(how: i32, set: u64) -> (r: MaskChange)
    requires
        signal_set_spec(how) is Ok,
    ensures
        r == mask_change_spec(signal_set_spec(how)->Ok_0, set),
{
    proof {
        SignalFlags::law_from_bits_total(set);
    }
    let flag = SignalFlags::from_bits(set).unwrap();
    match SignalSet::try_from(how).unwrap() {
        SignalSet::SigBlock => MaskChange::Block(flag),
        SignalSet::SigUnblock => MaskChange::Unblock(flag),
        SignalSet::SigSetmask => MaskChange::SetMask(flag),
    }
}

/// The change of the signal mask that `rt_sigprocmask(how, set, ..)` asks for:
/// none when the new set cannot be read (`set` is `None`), whatever `how`
/// is; else the change for `how`, which must then be one of the three known
/// values.
pub open spec fn sigprocmask_plan_spec(how: i32, set: Option<u64>) -> Option<MaskChange> {
    match set {
        None => None,
        Some(bits) => Some(mask_change_spec(signal_set_spec(how)->Ok_0, bits)),
    }
}

/// Decides the change of the signal mask for `rt_sigprocmask`; with an
/// unreadable set any `how` is accepted.
pub fn sigprocmask_plan(how: i32, set: Option<u64>) -> (r: Option<MaskChange>)
    requires
        set is Some ==> signal_set_spec(how) is Ok,
    ensures
        r == sigprocmask_plan_spec(how, set),
{
    match set {
        None => None,
        Some(bits) => Some(sigprocmask_change(how, bits)),
    }
}

/// Law: a new set that cannot be read leaves the mask alone, for any `how`.
pub proof fn law_unreadable_set_keeps_mask(how: i32)
    ensures
        sigprocmask_plan_spec(how, None) == None::<MaskChange>,
{
}

/// What `rt_sigaction` does with the signal's action.
#[derive(Debug, Clone, Copy, PartialEq, Eq, Structural)]
pub struct SigactionPlan {
    /// Write the current action to the caller's `oldact`.
    pub save_old: bool,
    /// Replace the action with the caller's `act`.
    pub install_new: bool,
    /// The slot of the signal's action.
    pub slot: usize,
}

/// Whether `rt_sigaction` may change the action of `signum`: the number,
/// read as a set of signals, must not be `SIGKILL` nor `SIGSTOP`.
pub open spec fn is_catchable(signum: i32) -> bool {
    signum as u64 != SIGKILL && signum as u64 != SIGSTOP
}

/// What `rt_sigaction(signum, act, oldact)` does, given whether `act` can
/// be read and `oldact` written.
pub open spec fn sigaction_plan_spec(
    signum: i32,
    new_act_readable: bool,
    old_act_writable: bool,
) -> Result<SigactionPlan, SysError> {
    if is_catchable(signum) {
        if new_act_readable {
            Ok(SigactionPlan { save_old: old_act_writable, install_new: true, slot: signum as usize })
        } else {
            Err(SysError::Inval)
        }
    } else {
        Ok(SigactionPlan { save_old: false, install_new: false, slot: signum as usize })
    }
}

/// The plan of `rt_sigaction`: an action that cannot be read is refused
/// with `Inval`; the actions of `SIGKILL` and `SIGSTOP` are left alone.
pub fn sigaction_plan(signum: i32, new_act_readable: bool, old_act_writable: bool) -> (r: Result<
    SigactionPlan,
    SysError,
>)
    ensures
        r == sigaction_plan_spec(signum, new_act_readable, old_act_writable),
{
    let slot: usize = signum as usize;
    let none = SigactionPlan { save_old: false, install_new: false, slot };
    proof {
        SignalFlags::law_from_bits_total(signum as u64);
    }
    if let Some(signal) = SignalFlags::from_bits(signum as u64) {
        if signal != SignalFlags::from_bits_retain(SIGKILL) && signal != SignalFlags::from_bits_retain(
            SIGSTOP,
        ) {
            if new_act_readable {
                return Ok(SigactionPlan { save_old: old_act_writable, install_new: true, slot });
            } else {
                return Err(SysError::Inval);
            }
        }
    }
    Ok(none)
}

/// Law: the actions of `SIGKILL` and `SIGSTOP` can neither be read nor
/// changed, and asking for it still succeeds.
pub proof fn law_uncatchable_signals(signum: i32, new_act_readable: bool, old_act_writable: bool)
    requires
        signum as u64 == SIGKILL || signum as u64 == SIGSTOP,
    ensures
        sigaction_plan_spec(signum, new_act_readable, old_act_writable) matches Ok(p) && !p.save_old
            && !p.install_new,
{
}

/// Law: for any other signal number, an action that can be read is always
/// installed, and the old one is reported exactly when it can be written.
pub proof fn law_catchable_signals(signum: i32, old_act_writable: bool)
    requires
        is_catchable(signum),
    ensures
        sigaction_plan_spec(signum, true, old_act_writable) == Ok::<SigactionPlan, SysError>(
            SigactionPlan { save_old: old_act_writable, install_new: true, slot: signum as usize },
        ),
        sigaction_plan_spec(signum, false, old_act_writable) == Err::<SigactionPlan, SysError>(
            SysError::Inval,
        ),
{
}

/// `rt_sigtimedwait`: not implemented, succeeds at once.
pub fn sys_rt_sigtimedwait(_signum: i32, _act: usize, _oldact: usize) -> (r: SysResult)
    ensures
        r == Ok::<isize, SysError>(0),
{
    Ok(0)
}

/// `rt_sigreturn`: succeeds at once.
pub fn sys_rt_sigreturn() -> (r: SysResult)
    ensures
        r == Ok::<isize, SysError>(0),
{
    Ok(0)
}

/// The signals that `kill(pid, sig)` adds to the mask of the target: the
/// number `sig`, read as a set of signals.
pub fn kill_signal(sig: i32) -> (r: SignalFlags)
    ensures
        r.bits_spec() == sig as u64,
{
    proof {
        SignalFlags::law_from_bits_total(sig as u64);
    }
    SignalFlags::from_bits(sig as u64).unwrap()
}

/// Law: with a readable set, `how` 0 blocks, 1 unblocks and 2 sets exactly
/// the signals of the set.
pub proof fn law_sigprocmask_how(bits: u64)
    ensures
        sigprocmask_plan_spec(0, Some(bits)) matches Some(MaskChange::Block(f))
            && f.bits_spec() == bits,
        sigprocmask_plan_spec(1, Some(bits)) matches Some(MaskChange::Unblock(f))
            && f.bits_spec() == bits,
        sigprocmask_plan_spec(2, Some(bits)) matches Some(MaskChange::SetMask(f))
            && f.bits_spec() == bits,
{
}

} // verus!
