//! Plain data types shared by the system calls: signal actions, the values
//! of `rt_sigprocmask`'s `how` and of `futex`'s `op`, timer kinds, and the
//! per-task time accounting.
use vstd::prelude::*;

verus! {

/// `tv_nsec` value of `utimensat` that asks for the current time.
pub const UTIME_NOW: usize = 0x3fffffff;

/// `tv_nsec` value of `utimensat` that leaves the time unchanged.
pub const UTIME_OMIT: usize = 0x3ffffffe;

/// A `sigset_t`: 1024 bits, as 16 words of 64 bits.
#[derive(Clone, Copy, Debug)]
pub struct SigsetT {
    bits: [u64; 16],
}

/// A `struct sigaction`.
#[derive(Clone, Copy, Debug)]
pub struct SigAction {
    /// `void (*)(int)`
    pub sa_handler: usize,
    /// `int`
    pub sa_flags: usize,
    pub sa_restorer: usize,
    /// `sigset_t`
    pub sa_mask: usize,
}

impl Default for SigAction {
    /// The action with every field zero: the default handler, no flags.
    fn default() -> (r: Self)
        ensures
            r == (SigAction { sa_handler: 0, sa_flags: 0, sa_restorer: 0, sa_mask: 0 }),
    {
        Self { sa_handler: 0, sa_flags: 0, sa_restorer: 0, sa_mask: 0 }
    }
}

/// The number of signals.
pub const VAILD_SIGNAL: usize = 64;

/// A reduced `siginfo_t`.
pub struct SiginfoT {
    si_signo: i32,
    si_errno: i32,
    si_code: i32,
}

/// What waiting for a child reports when it does not give a pid.
#[derive(Debug, Clone, Copy, PartialEq, Eq, Structural)]
pub enum WaitStatus {
    /// The child exited normally.
    Exited,
    /// The child is still running.
    Running,
    /// There is no such child.
    NotExist,
}

/// The `how` argument of `rt_sigprocmask`.
#[derive(Debug, Clone, Copy, PartialEq, Eq, Structural)]
pub enum SignalSet {
    SigBlock,
    SigUnblock,
    SigSetmask,
}

/// What `SignalSet::try_from` gives for a raw `how`.
pub open spec fn signal_set_spec(value: i32) -> Result<SignalSet, &'static str> {
    match value {
        0 => Ok(SignalSet::SigBlock),
        1 => Ok(SignalSet::SigUnblock),
        2 => Ok(SignalSet::SigSetmask),
        _ => Err("Invalid signal set value"),
    }
}

impl TryFrom<i32> for SignalSet {
    type Error = &'static str;

    fn try_from(value: i32) -> (r: Result<Self, Self::Error>)
        ensures
            r == signal_set_spec(value),
    {
        match value {
            0 => Ok(SignalSet::SigBlock),
            1 => Ok(SignalSet::SigUnblock),
            2 => Ok(SignalSet::SigSetmask),
            _ => Err("Invalid signal set value"),
        }
    }
}

impl vstd::std_specs::convert::TryFromSpecImpl<i32> for SignalSet {
    open spec fn obeys_try_from_spec() -> bool {
        true
    }

    open spec fn try_from_spec(v: i32) -> Result<Self, &'static str> {
        signal_set_spec(v)
    }
}

/// The operation of a `futex` call.
#[derive(Debug, Clone, Copy, PartialEq, Eq, Structural)]
pub enum FluxStatus {
    /// FUTEX_WAIT (0)
    Wait,
    /// FUTEX_WAKE (1)
    Wake,
    /// FUTEX_REQUEUE (3)
    Requeue,
    /// FUTEX_CMP_REQUEUE (4)
    CmpRequeue,
    /// FUTEX_WAKE_OP (5)
    WakeOp,
    /// FUTEX_LOCK_PI (6)
    LockPi,
    /// FUTEX_UNLOCK_PI (7)
    UnlockPi,
    /// FUTEX_WAIT_BITSET (9)
    WaitBitset,
    /// FUTEX_WAKE_BITSET (10)
    WakeBitset,
    /// FUTEX_WAIT_PRIVATE (128)
    WaitPrivate,
    /// FUTEX_WAKE_PRIVATE (129)
    WakePrivate,
    /// No operation (-1)
    NONE,
}

/// The value of an operation as an `i32`: its position in the list, except
/// `WaitPrivate` (128), `WakePrivate` (129) and `NONE` (-1). These are the
/// positions, not the Linux codes that `try_from` reads: `Requeue` is 2.
pub open spec fn flux_code_spec(status: FluxStatus) -> i32 {
    match status {
        FluxStatus::Wait => 0i32,
        FluxStatus::Wake => 1i32,
        FluxStatus::Requeue => 2i32,
        FluxStatus::CmpRequeue => 3i32,
        FluxStatus::WakeOp => 4i32,
        FluxStatus::LockPi => 5i32,
        FluxStatus::UnlockPi => 6i32,
        FluxStatus::WaitBitset => 7i32,
        FluxStatus::WakeBitset => 8i32,
        FluxStatus::WaitPrivate => 128i32,
        FluxStatus::WakePrivate => 129i32,
        FluxStatus::NONE => -1i32,
    }
}

impl FluxStatus {
    /// The operation as an `i32`.
    pub fn code(self) -> (r: i32)
        ensures
            r == flux_code_spec(self),
    {
        match self {
            FluxStatus::Wait => 0,
            FluxStatus::Wake => 1,
            FluxStatus::Requeue => 2,
            FluxStatus::CmpRequeue => 3,
            FluxStatus::WakeOp => 4,
            FluxStatus::LockPi => 5,
            FluxStatus::UnlockPi => 6,
            FluxStatus::WaitBitset => 7,
            FluxStatus::WakeBitset => 8,
            FluxStatus::WaitPrivate => 128,
            FluxStatus::WakePrivate => 129,
            FluxStatus::NONE => -1,
        }
    }
}

/// What `FluxStatus::try_from` gives for a raw operation code.
pub open spec fn flux_status_spec(value: i32) -> Result<FluxStatus, &'static str> {
    match value {
        0 => Ok(FluxStatus::Wait),
        1 => Ok(FluxStatus::Wake),
        3 => Ok(FluxStatus::Requeue),
        4 => Ok(FluxStatus::CmpRequeue),
        5 => Ok(FluxStatus::WakeOp),
        6 => Ok(FluxStatus::LockPi),
        7 => Ok(FluxStatus::UnlockPi),
        9 => Ok(FluxStatus::WaitBitset),
        10 => Ok(FluxStatus::WakeBitset),
        128 => Ok(FluxStatus::WaitPrivate),
        129 => Ok(FluxStatus::WakePrivate),
        -1 => Ok(FluxStatus::NONE),
        _ => Err("Invalid value for FluxStatus"),
    }
}

impl TryFrom<i32> for FluxStatus {
    type Error = &'static str;

    fn try_from(value: i32) -> (r: Result<Self, Self::Error>)
        ensures
            r == flux_status_spec(value),
    {
        match value {
            0 => Ok(FluxStatus::Wait),
            1 => Ok(FluxStatus::Wake),
            3 => Ok(FluxStatus::Requeue),
            4 => Ok(FluxStatus::CmpRequeue),
            5 => Ok(FluxStatus::WakeOp),
            6 => Ok(FluxStatus::LockPi),
            7 => Ok(FluxStatus::UnlockPi),
            9 => Ok(FluxStatus::WaitBitset),
            10 => Ok(FluxStatus::WakeBitset),
            128 => Ok(FluxStatus::WaitPrivate),
            129 => Ok(FluxStatus::WakePrivate),
            -1 => Ok(FluxStatus::NONE),
            _ => Err("Invalid value for FluxStatus"),
        }
    }
}

impl vstd::std_specs::convert::TryFromSpecImpl<i32> for FluxStatus {
    open spec fn obeys_try_from_spec() -> bool {
        true
    }

    open spec fn try_from_spec(v: i32) -> Result<Self, &'static str> {
        flux_status_spec(v)
    }
}

/// Process times, as `times` reports them.
pub struct Tms {
    /// User time of the process, in us.
    pub tms_utime: usize,
    /// Kernel time of the process, in us.
    pub tms_stime: usize,
    /// Sum of the user times of the children, in us.
    pub tms_cutime: usize,
    /// Sum of the kernel times of the children, in us.
    pub tms_cstime: usize,
}

/// The kind of interval timer of a task.
#[allow(non_camel_case_types)]
#[derive(Eq, PartialEq, Debug, Clone, Copy, Structural)]
pub enum TimerType {
    /// No timer (-1; not a Linux value, the kernel's own).
    NONE,
    /// Counts real time (0).
    REAL,
    /// Counts user time (1).
    VIRTUAL,
    /// Counts user and kernel time (2).
    PROF,
}

/// What `TimerType::try_from` gives for a raw code: the code itself when it
/// names no timer type.
pub open spec fn timer_type_spec(value: i32) -> Result<TimerType, i32> {
    match value {
        -1 => Ok(TimerType::NONE),
        0 => Ok(TimerType::REAL),
        1 => Ok(TimerType::VIRTUAL),
        2 => Ok(TimerType::PROF),
        _ => Err(value),
    }
}

/// The code of a timer type.
pub open spec fn timer_code_spec(t: TimerType) -> i32 {
    match t {
        TimerType::NONE => -1i32,
        TimerType::REAL => 0i32,
        TimerType::VIRTUAL => 1i32,
        TimerType::PROF => 2i32,
    }
}

/// What `TimerType::from` gives for a `usize`: the code is its low 32 bits,
/// read as an `i32`, and a code that names no timer type gives `NONE`.
pub open spec fn timer_type_from_usize(num: usize) -> TimerType {
    match timer_type_spec(num as i32) {
        Ok(t) => t,
        Err(_) => TimerType::NONE,
    }
}

impl TryFrom<i32> for TimerType {
    type Error = i32;

    fn try_from(value: i32) -> (r: Result<Self, Self::Error>)
        ensures
            r == timer_type_spec(value),
    {
        match value {
            -1 => Ok(TimerType::NONE),
            0 => Ok(TimerType::REAL),
            1 => Ok(TimerType::VIRTUAL),
            2 => Ok(TimerType::PROF),
            _ => Err(value),
        }
    }
}

impl vstd::std_specs::convert::TryFromSpecImpl<i32> for TimerType {
    open spec fn obeys_try_from_spec() -> bool {
        true
    }

    open spec fn try_from_spec(v: i32) -> Result<Self, i32> {
        timer_type_spec(v)
    }
}

impl From<TimerType> for i32 {
    fn from(t: TimerType) -> (r: i32)
        ensures
            r == timer_code_spec(t),
    {
        match t {
            TimerType::NONE => -1,
            TimerType::REAL => 0,
            TimerType::VIRTUAL => 1,
            TimerType::PROF => 2,
        }
    }
}

impl vstd::std_specs::convert::FromSpecImpl<TimerType> for i32 {
    open spec fn obeys_from_spec() -> bool {
        true
    }

    open spec fn from_spec(t: TimerType) -> i32 {
        timer_code_spec(t)
    }
}

impl From<usize> for TimerType {
    fn from(num: usize) -> (r: Self)
        ensures
            r == timer_type_from_usize(num),
    {
        match Self::try_from(num as i32) {
            Ok(val) => val,
            Err(_) => Self::NONE,
        }
    }
}

impl vstd::std_specs::convert::FromSpecImpl<usize> for TimerType {
    open spec fn obeys_from_spec() -> bool {
        true
    }

    open spec fn from_spec(num: usize) -> TimerType {
        timer_type_from_usize(num)
    }
}

/// Law: a timer type's code, converted to `usize` and back, gives the same
/// timer type; and a code read back gives the same type.
pub proof fn law_timer_code_round_trip(t: TimerType)
    ensures
        timer_type_spec(timer_code_spec(t)) == Ok::<TimerType, i32>(t),
        timer_type_from_usize(timer_code_spec(t) as usize) == t,
{
    let c: i32 = timer_code_spec(t);
    assert(((c as usize) as i32) == c) by (bit_vector);
}


/// The state of a task's time accounting, as the contracts of `TimeStat`
/// speak of it.
pub struct TimeStatModel {
    /// Time accounted to user mode, in ns.
    pub utime_ns: usize,
    /// Time accounted to kernel mode, in ns.
    pub stime_ns: usize,
    /// When the task last entered user mode.
    pub user_timestamp: usize,
    /// The time from which the next switch measures.
    pub kernel_timestamp: usize,
    /// The kind of interval timer.
    pub timer_type: TimerType,
    /// The period of the interval timer, in ns.
    pub timer_interval_ns: usize,
    /// What is left of the interval timer, in ns.
    pub timer_remained_ns: usize,
}

impl TimeStatModel {
    /// A fresh accounting: everything zero, no timer.
    pub open spec fn initial() -> Self {
        TimeStatModel {
            utime_ns: 0,
            stime_ns: 0,
            user_timestamp: 0,
            kernel_timestamp: 0,
            timer_type: TimerType::NONE,
            timer_interval_ns: 0,
            timer_remained_ns: 0,
        }
    }

    /// The time since `kernel_timestamp`.
    pub open spec fn elapsed(self, now: usize) -> int {
        now - self.kernel_timestamp
    }

    /// The timer after `delta` ns: a running timer with more than `delta`
    /// left loses `delta`; otherwise it is left as it is.
    pub open spec fn counted_down(self, delta: int) -> Self {
        if self.timer_remained_ns != 0 && self.timer_remained_ns > delta {
            TimeStatModel { timer_remained_ns: (self.timer_remained_ns - delta) as usize, ..self }
        } else {
            self
        }
    }

    /// After `reset(now)`: no time accounted, the clock restarted at `now`.
    pub open spec fn after_reset(self, now: usize) -> Self {
        TimeStatModel { utime_ns: 0, stime_ns: 0, user_timestamp: 0, kernel_timestamp: now, ..self }
    }

    /// Whether `switch_into_kernel_mode(now)` can account the elapsed time.
    pub open spec fn can_enter_kernel(self, now: usize) -> bool {
        self.kernel_timestamp <= now && self.utime_ns + self.elapsed(now) <= usize::MAX
    }

    /// After `switch_into_kernel_mode(now)`: the elapsed time goes to user
    /// time, the clock moves to `now`, and any timer counts it down.
    pub open spec fn after_enter_kernel(self, now: usize) -> Self {
        let d: int = self.elapsed(now);
        let s = TimeStatModel {
            utime_ns: (self.utime_ns + d) as usize,
            kernel_timestamp: now,
            ..self
        };
        if self.timer_type != TimerType::NONE {
            s.counted_down(d)
        } else {
            s
        }
    }

    /// Whether `switch_into_user_mode(now)` can account the elapsed time.
    pub open spec fn can_enter_user(self, now: usize) -> bool {
        self.kernel_timestamp <= now && self.stime_ns + self.elapsed(now) <= usize::MAX
    }

    /// After `switch_into_user_mode(now)`: the elapsed time goes to kernel
    /// time, `user_timestamp` becomes `now`, and a real-time or profiling
    /// timer counts it down. The clock is not moved.
    pub open spec fn after_enter_user(self, now: usize) -> Self {
        let d: int = self.elapsed(now);
        let s = TimeStatModel {
            stime_ns: (self.stime_ns + d) as usize,
            user_timestamp: now,
            ..self
        };
        if self.timer_type == TimerType::REAL || self.timer_type == TimerType::PROF {
            s.counted_down(d)
        } else {
            s
        }
    }

    /// Whether `switch_from_old_task(now)` can account the elapsed time.
    pub open spec fn can_leave_task(self, now: usize) -> bool {
        self.can_enter_user(now)
    }

    /// After `switch_from_old_task(now)`: the elapsed time goes to kernel
    /// time, the clock moves to `now`, and a real-time or profiling timer
    /// counts it down.
    pub open spec fn after_leave_task(self, now: usize) -> Self {
        let d: int = self.elapsed(now);
        let s = TimeStatModel {
            stime_ns: (self.stime_ns + d) as usize,
            kernel_timestamp: now,
            ..self
        };
        if self.timer_type == TimerType::REAL || self.timer_type == TimerType::PROF {
            s.counted_down(d)
        } else {
            s
        }
    }

    /// Whether `switch_to_new_task(now)` can measure the elapsed time.
    pub open spec fn can_resume_task(self, now: usize) -> bool {
        self.kernel_timestamp <= now
    }

    /// After `switch_to_new_task(now)`: no time is accounted, the clock moves
    /// to `now`, and a real-time timer counts the elapsed time down.
    pub open spec fn after_resume_task(self, now: usize) -> Self {
        let d: int = self.elapsed(now);
        let s = TimeStatModel { kernel_timestamp: now, ..self };
        if self.timer_type == TimerType::REAL {
            s.counted_down(d)
        } else {
            s
        }
    }

    /// After `set_timer(interval, remained, timer_type)`.
    pub open spec fn after_set_timer(self, interval: usize, remained: usize, timer_type: usize) -> Self {
        TimeStatModel {
            timer_type: timer_type_from_usize(timer_type),
            timer_interval_ns: interval,
            timer_remained_ns: remained,
            ..self
        }
    }

    /// Law: no mode or task switch makes the time left on the timer grow,
    /// nor changes the timer's kind or period.
    pub proof fn law_timer_never_rises(self, now: usize)
        ensures
            self.can_enter_kernel(now) ==> {
                let n = self.after_enter_kernel(now);
                &&& n.timer_remained_ns <= self.timer_remained_ns
                &&& n.timer_type == self.timer_type
                &&& n.timer_interval_ns == self.timer_interval_ns
            },
            self.can_enter_user(now) ==> {
                let n = self.after_enter_user(now);
                &&& n.timer_remained_ns <= self.timer_remained_ns
                &&& n.timer_type == self.timer_type
                &&& n.timer_interval_ns == self.timer_interval_ns
            },
            self.can_leave_task(now) ==> {
                let n = self.after_leave_task(now);
                &&& n.timer_remained_ns <= self.timer_remained_ns
                &&& n.timer_type == self.timer_type
                &&& n.timer_interval_ns == self.timer_interval_ns
            },
            self.can_resume_task(now) ==> {
                let n = self.after_resume_task(now);
                &&& n.timer_remained_ns <= self.timer_remained_ns
                &&& n.timer_type == self.timer_type
                &&& n.timer_interval_ns == self.timer_interval_ns
            },
    {
    }

    /// Law: counting the timer down never makes more time left, and a timer
    /// with nothing left stays at zero.
    pub proof fn law_countdown_never_rises(self, delta: nat)
        ensures
            self.counted_down(delta as int).timer_remained_ns <= self.timer_remained_ns,
            self.timer_remained_ns == 0 ==> self.counted_down(delta as int).timer_remained_ns == 0,
    {
    }

    /// Law: a timer with nothing left stays at zero through every switch,
    /// and without a timer (`NONE`) the time left never changes.
    pub proof fn law_idle_timer_is_untouched(self, now: usize)
        requires
            self.timer_remained_ns == 0 || self.timer_type == TimerType::NONE,
        ensures
            self.can_enter_kernel(now) ==> self.after_enter_kernel(now).timer_remained_ns
                == self.timer_remained_ns,
            self.can_enter_user(now) ==> self.after_enter_user(now).timer_remained_ns
                == self.timer_remained_ns,
            self.can_leave_task(now) ==> self.after_leave_task(now).timer_remained_ns
                == self.timer_remained_ns,
            self.can_resume_task(now) ==> self.after_resume_task(now).timer_remained_ns
                == self.timer_remained_ns,
    {
    }

    /// Law: every switch that accounts time adds exactly the time elapsed
    /// since `kernel_timestamp` to the total of user and kernel time;
    /// resuming a task adds nothing, and a reset clears the total.
    pub proof fn law_time_is_accounted_once(self, now: usize)
        ensures
            self.can_enter_kernel(now) ==> {
                let n = self.after_enter_kernel(now);
                n.utime_ns + n.stime_ns == self.utime_ns + self.stime_ns + self.elapsed(now)
            },
            self.can_enter_user(now) ==> {
                let n = self.after_enter_user(now);
                n.utime_ns + n.stime_ns == self.utime_ns + self.stime_ns + self.elapsed(now)
            },
            self.can_leave_task(now) ==> {
                let n = self.after_leave_task(now);
                n.utime_ns + n.stime_ns == self.utime_ns + self.stime_ns + self.elapsed(now)
            },
            self.can_resume_task(now) ==> {
                let n = self.after_resume_task(now);
                n.utime_ns + n.stime_ns == self.utime_ns + self.stime_ns
            },
            self.after_reset(now).utime_ns + self.after_reset(now).stime_ns == 0,
    {
    }

    /// Law: after entering the kernel, leaving a task, resuming a task or a
    /// reset, the next switch measures from `now`; entering user mode keeps
    /// the clock where it was.
    pub proof fn law_clock_follows_switches(self, now: usize)
        ensures
            self.after_enter_kernel(now).kernel_timestamp == now,
            self.after_leave_task(now).kernel_timestamp == now,
            self.after_resume_task(now).kernel_timestamp == now,
            self.after_reset(now).kernel_timestamp == now,
            self.after_enter_user(now).kernel_timestamp == self.kernel_timestamp,
            self.after_enter_user(now).user_timestamp == now,
    {
    }
}

/// Per-task time accounting with an optional interval timer.
pub struct TimeStat {
    utime_ns: usize,
    stime_ns: usize,
    user_timestamp: usize,
    kernel_timestamp: usize,
    timer_type: TimerType,
    timer_interval_ns: usize,
    timer_remained_ns: usize,
}

impl View for TimeStat {
    type V = TimeStatModel;

    closed spec fn view(&self) -> TimeStatModel {
        TimeStatModel {
            utime_ns: self.utime_ns,
            stime_ns: self.stime_ns,
            user_timestamp: self.user_timestamp,
            kernel_timestamp: self.kernel_timestamp,
            timer_type: self.timer_type,
            timer_interval_ns: self.timer_interval_ns,
            timer_remained_ns: self.timer_remained_ns,
        }
    }
}

impl Default for TimeStat {
    fn default() -> (r: Self)
        ensures
            r@ == TimeStatModel::initial(),
    {
        Self::new()
    }
}

impl TimeStat {
    pub fn new() -> (r: Self)
        ensures
            r@ == TimeStatModel::initial(),
    {
        Self {
            utime_ns: 0,
            stime_ns: 0,
            user_timestamp: 0,
            kernel_timestamp: 0,
            timer_type: TimerType::NONE,
            timer_interval_ns: 0,
            timer_remained_ns: 0,
        }
    }

    /// The user and kernel time accounted so far, in ns.
    pub fn output(&self) -> (r: (usize, usize))
        ensures
            r == (self@.utime_ns, self@.stime_ns),
    {
        (self.utime_ns, self.stime_ns)
    }

    pub fn reset(&mut self, current_timestamp: usize)
        ensures
            final(self)@ == old(self)@.after_reset(current_timestamp),
    {
        self.utime_ns = 0;
        self.stime_ns = 0;
        self.user_timestamp = 0;
        self.kernel_timestamp = current_timestamp;
    }

    pub fn switch_into_kernel_mode(&mut self, current_timestamp: usize)
        requires
            old(self)@.can_enter_kernel(current_timestamp),
        ensures
            final(self)@ == old(self)@.after_enter_kernel(current_timestamp),
    {
        let now_time_ns: usize = current_timestamp;
        let delta: usize = now_time_ns - self.kernel_timestamp;
        self.utime_ns += delta;
        self.kernel_timestamp = now_time_ns;
        if self.timer_type != TimerType::NONE {
            self.update_timer(delta);
        };
    }

    pub fn switch_into_user_mode(&mut self, current_timestamp: usize)
        requires
            old(self)@.can_enter_user(current_timestamp),
        ensures
            final(self)@ == old(self)@.after_enter_user(current_timestamp),
    {
        let now_time_ns: usize = current_timestamp;
        let delta: usize = now_time_ns - self.kernel_timestamp;
        self.stime_ns += delta;
        self.user_timestamp = now_time_ns;
        if self.timer_type == TimerType::REAL || self.timer_type == TimerType::PROF {
            self.update_timer(delta);
        }
    }

    pub fn switch_from_old_task(&mut self, current_timestamp: usize)
        requires
            old(self)@.can_leave_task(current_timestamp),
        ensures
            final(self)@ == old(self)@.after_leave_task(current_timestamp),
    {
        let now_time_ns: usize = current_timestamp;
        let delta: usize = now_time_ns - self.kernel_timestamp;
        self.stime_ns += delta;
        self.kernel_timestamp = now_time_ns;
        if self.timer_type == TimerType::REAL || self.timer_type == TimerType::PROF {
            self.update_timer(delta);
        }
    }

    pub fn switch_to_new_task(&mut self, current_timestamp: usize)
        requires
            old(self)@.can_resume_task(current_timestamp),
        ensures
            final(self)@ == old(self)@.after_resume_task(current_timestamp),
    {
        let now_time_ns: usize = current_timestamp;
        let delta: usize = now_time_ns - self.kernel_timestamp;
        self.kernel_timestamp = now_time_ns;
        if self.timer_type == TimerType::REAL {
            self.update_timer(delta);
        }
    }

    /// Sets the interval timer; tells whether a timer is now running.
    pub fn set_timer(
        &mut self,
        timer_interval_ns: usize,
        timer_remained_ns: usize,
        timer_type: usize,
    ) -> (r: bool)
        ensures
            final(self)@ == old(self)@.after_set_timer(
                timer_interval_ns,
                timer_remained_ns,
                timer_type,
            ),
            r == (timer_type_from_usize(timer_type) != TimerType::NONE),
    {
        self.timer_type = timer_type.into();
        self.timer_interval_ns = timer_interval_ns;
        self.timer_remained_ns = timer_remained_ns;
        self.timer_type != TimerType::NONE
    }

    /// Counts the timer down by `delta` ns, if it is running and has more
    /// than that left.
    pub fn update_timer(&mut self, delta: usize)
        ensures
            final(self)@ == old(self)@.counted_down(delta as int),
    {
        if self.timer_remained_ns == 0 {
            return;
        }
        if self.timer_remained_ns > delta {
            self.timer_remained_ns -= delta;
        }
    }
}

/// Law: `how` is one of 0, 1 and 2, and distinct values give distinct
/// changes of the mask.
pub proof fn law_signal_set_codes(a: i32, b: i32)
    ensures
        signal_set_spec(a) is Ok <==> 0 <= a <= 2,
        signal_set_spec(a) is Ok && signal_set_spec(a) == signal_set_spec(b) ==> a == b,
{
}

/// Law: exactly the listed futex codes are known, and distinct codes give
/// distinct operations.
pub proof fn law_flux_status_codes(a: i32, b: i32)
    ensures
        flux_status_spec(a) is Ok <==> (0 <= a <= 10 && a != 2 && a != 8) || a == 128 || a == 129
            || a == -1,
        flux_status_spec(a) is Ok && flux_status_spec(a) == flux_status_spec(b) ==> a == b,
{
}

/// Law: setting the timer changes only the timer: the accounted times and
/// the clock stay, and the timer takes exactly the values given.
pub proof fn law_set_timer_touches_only_the_timer(
    m: TimeStatModel,
    interval: usize,
    remained: usize,
    timer_type: usize,
)
    ensures
        ({
            let n = m.after_set_timer(interval, remained, timer_type);
            &&& n.utime_ns == m.utime_ns
            &&& n.stime_ns == m.stime_ns
            &&& n.user_timestamp == m.user_timestamp
            &&& n.kernel_timestamp == m.kernel_timestamp
            &&& n.timer_interval_ns == interval
            &&& n.timer_remained_ns == remained
            &&& n.timer_type == timer_type_from_usize(timer_type)
        }),
{
}

} // verus!
