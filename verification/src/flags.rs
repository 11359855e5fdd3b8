//! Flag sets used by the system calls: signal masks, `clone` options and
//! `wait4` options. Each set is a plain bit pattern; a named flag is a
//! constant with one bit set.
use vstd::prelude::*;

verus! {

// ---------------------------------------------------------------------------
// Signals (one bit per signal, all 64 bits are named)
// ---------------------------------------------------------------------------
pub const SIGHUP: u64 = 0x1;
/// Interactive attention signal.
pub const SIGINT: u64 = 0x2;
/// Quit.
pub const SIGQUIT: u64 = 0x4;
/// Illegal instruction.
pub const SIGILL: u64 = 0x8;
/// Trace/breakpoint trap.
pub const SIGTRAP: u64 = 0x10;
/// IOT instruction, abort() on a PDP-11.
pub const SIGABRT: u64 = 0x20;
/// Bus error.
pub const SIGBUS: u64 = 0x40;
/// Erroneous arithmetic operation.
pub const SIGFPE: u64 = 0x80;
/// Killed.
pub const SIGKILL: u64 = 0x100;
/// User-defined signal 1.
pub const SIGUSR1: u64 = 0x200;
/// Invalid access to storage.
pub const SIGSEGV: u64 = 0x400;
/// User-defined signal 2.
pub const SIGUSR2: u64 = 0x800;
/// Broken pipe.
pub const SIGPIPE: u64 = 0x1000;
/// Alarm clock.
pub const SIGALRM: u64 = 0x2000;
/// Termination request.
pub const SIGTERM: u64 = 0x4000;
pub const SIGSTKFLT: u64 = 0x8000;
/// Child terminated or stopped.
pub const SIGCHLD: u64 = 0x1_0000;
/// Continue.
pub const SIGCONT: u64 = 0x2_0000;
/// Stop, unblockable.
pub const SIGSTOP: u64 = 0x4_0000;
/// Keyboard stop.
pub const SIGTSTP: u64 = 0x8_0000;
/// Background read from control terminal.
pub const SIGTTIN: u64 = 0x10_0000;
/// Background write to control terminal.
pub const SIGTTOU: u64 = 0x20_0000;
/// Urgent data is available at a socket.
pub const SIGURG: u64 = 0x40_0000;
/// CPU time limit exceeded.
pub const SIGXCPU: u64 = 0x80_0000;
/// File size limit exceeded.
pub const SIGXFSZ: u64 = 0x100_0000;
/// Virtual timer expired.
pub const SIGVTALRM: u64 = 0x200_0000;
/// Profiling timer expired.
pub const SIGPROF: u64 = 0x400_0000;
/// Window size change (4.3 BSD, Sun).
pub const SIGWINCH: u64 = 0x800_0000;
/// I/O now possible (4.2 BSD).
pub const SIGIO: u64 = 0x1000_0000;
pub const SIGPWR: u64 = 0x2000_0000;
/// Bad system call.
pub const SIGSYS: u64 = 0x4000_0000;
// realtime signals for pthread
pub const SIGTIMER: u64 = 0x8000_0000;
pub const SIGCANCEL: u64 = 0x1_0000_0000;
pub const SIGSYNCCALL: u64 = 0x2_0000_0000;
// other realtime signals
pub const SIGRT_3: u64 = 0x4_0000_0000;
pub const SIGRT_4: u64 = 0x8_0000_0000;
pub const SIGRT_5: u64 = 0x10_0000_0000;
pub const SIGRT_6: u64 = 0x20_0000_0000;
pub const SIGRT_7: u64 = 0x40_0000_0000;
pub const SIGRT_8: u64 = 0x80_0000_0000;
pub const SIGRT_9: u64 = 0x100_0000_0000;
pub const SIGRT_10: u64 = 0x200_0000_0000;
pub const SIGRT_11: u64 = 0x400_0000_0000;
pub const SIGRT_12: u64 = 0x800_0000_0000;
pub const SIGRT_13: u64 = 0x1000_0000_0000;
pub const SIGRT_14: u64 = 0x2000_0000_0000;
pub const SIGRT_15: u64 = 0x4000_0000_0000;
pub const SIGRT_16: u64 = 0x8000_0000_0000;
pub const SIGRT_17: u64 = 0x1_0000_0000_0000;
pub const SIGRT_18: u64 = 0x2_0000_0000_0000;
pub const SIGRT_19: u64 = 0x4_0000_0000_0000;
pub const SIGRT_20: u64 = 0x8_0000_0000_0000;
pub const SIGRT_21: u64 = 0x10_0000_0000_0000;
pub const SIGRT_22: u64 = 0x20_0000_0000_0000;
pub const SIGRT_23: u64 = 0x40_0000_0000_0000;
pub const SIGRT_24: u64 = 0x80_0000_0000_0000;
pub const SIGRT_25: u64 = 0x100_0000_0000_0000;
pub const SIGRT_26: u64 = 0x200_0000_0000_0000;
pub const SIGRT_27: u64 = 0x400_0000_0000_0000;
pub const SIGRT_28: u64 = 0x800_0000_0000_0000;
pub const SIGRT_29: u64 = 0x1000_0000_0000_0000;
pub const SIGRT_30: u64 = 0x2000_0000_0000_0000;
pub const SIGRT_31: u64 = 0x4000_0000_0000_0000;
pub const SIGRTMAX: u64 = 0x8000_0000_0000_0000;

/// Every signal bit: all 64 bits are named.
pub const SIGNAL_ALL: u64 = 0xffff_ffff_ffff_ffffu64;

/// A set of signals, one bit per signal.
#[derive(Clone, Copy, Debug, PartialEq, Eq, Structural)]
pub struct SignalFlags {
    bits: u64,
}

impl SignalFlags {
    /// The raw bits of the set.
    pub closed spec fn bits_spec(&self) -> u64 {
        self.bits
    }

    /// Two sets are the same value exactly when their bits agree.
    pub broadcast proof fn lemma_eq_by_bits(a: Self, b: Self)
        ensures
            #[trigger] a.bits_spec() == #[trigger] b.bits_spec() <==> a == b,
    {
    }

    /// The set made from some bits has those bits.
    pub broadcast proof fn lemma_retain_bits(bits: u64)
        ensures
            (#[trigger] Self::from_bits_retain_spec(bits)).bits_spec() == bits,
    {
    }

    #[verifier::when_used_as_spec(bits_spec)]
    pub fn bits(&self) -> (r: u64)
        ensures
            r == self.bits_spec(),
    {
        self.bits
    }

    pub closed spec fn from_bits_retain_spec(bits: u64) -> Self {
        SignalFlags { bits }
    }

    /// The set with exactly the given bits, named or not.
    #[verifier::when_used_as_spec(from_bits_retain_spec)]
    pub fn from_bits_retain(bits: u64) -> (r: Self)
        ensures
            r.bits_spec() == bits,
            r == Self::from_bits_retain_spec(bits),
    {
        SignalFlags { bits }
    }

    /// The set of the given bits, or `None` if a bit is not a named signal.
    pub fn from_bits(bits: u64) -> (r: Option<Self>)
        ensures
            r is Some <==> bits & SIGNAL_ALL == bits,
            r matches Some(f) ==> f.bits_spec() == bits,
    {
        if bits & SIGNAL_ALL == bits {
            Some(SignalFlags { bits })
        } else {
            None
        }
    }

    /// The set of the named signals among the given bits.
    pub fn from_bits_truncate(bits: u64) -> (r: Self)
        ensures
            r.bits_spec() == bits & SIGNAL_ALL,
    {
        SignalFlags { bits: bits & SIGNAL_ALL }
    }

    pub fn empty() -> (r: Self)
        ensures
            r.bits_spec() == 0,
    {
        SignalFlags { bits: 0 }
    }

    pub fn all() -> (r: Self)
        ensures
            r.bits_spec() == SIGNAL_ALL,
    {
        SignalFlags { bits: SIGNAL_ALL }
    }

    pub open spec fn is_empty_spec(&self) -> bool {
        self.bits_spec() == 0
    }

    #[verifier::when_used_as_spec(is_empty_spec)]
    pub fn is_empty(&self) -> (r: bool)
        ensures
            r == self.is_empty_spec(),
    {
        self.bits == 0
    }

    pub open spec fn contains_spec(&self, other: Self) -> bool {
        self.bits_spec() & other.bits_spec() == other.bits_spec()
    }

    /// Whether every signal of `other` is in `self`.
    #[verifier::when_used_as_spec(contains_spec)]
    pub fn contains(&self, other: Self) -> (r: bool)
        ensures
            r == self.contains_spec(other),
    {
        self.bits & other.bits == other.bits
    }

    pub open spec fn intersects_spec(&self, other: Self) -> bool {
        self.bits_spec() & other.bits_spec() != 0
    }

    /// Whether some signal of `other` is in `self`.
    #[verifier::when_used_as_spec(intersects_spec)]
    pub fn intersects(&self, other: Self) -> (r: bool)
        ensures
            r == self.intersects_spec(other),
    {
        self.bits & other.bits != 0
    }

    /// Adds the signals of `other`.
    pub fn insert(&mut self, other: Self)
        ensures
            final(self).bits_spec() == old(self).bits_spec() | other.bits_spec(),
            *final(self) == old(self).union_spec(other),
    {
        self.bits = self.bits | other.bits;
    }

    /// Takes out the signals of `other`.
    pub fn remove(&mut self, other: Self)
        ensures
            final(self).bits_spec() == old(self).bits_spec() & !other.bits_spec(),
            *final(self) == old(self).difference_spec(other),
    {
        self.bits = self.bits & !other.bits;
    }

    /// Law: once `flag` has been inserted into a set, the set contains it,
    /// and it still contains everything it contained before.
    pub proof fn law_insert_contains(before: Self, after: Self, flag: Self)
        requires
            after.bits_spec() == before.bits_spec() | flag.bits_spec(),
        ensures
            after.contains_spec(flag),
            after.contains_spec(before),
    {
        let a: u64 = before.bits_spec();
        let f: u64 = flag.bits_spec();
        let r: u64 = after.bits_spec();
        assert(r & f == f && r & a == a) by (bit_vector)
            requires
                r == a | f,
        ;
    }

    /// Law: once `flag` has been removed from a set, no signal of it is left,
    /// and the result is contained in the set before the removal.
    pub proof fn law_remove_disjoint(before: Self, after: Self, flag: Self)
        requires
            after.bits_spec() == before.bits_spec() & !flag.bits_spec(),
        ensures
            !after.intersects_spec(flag),
            before.contains_spec(after),
    {
        let a: u64 = before.bits_spec();
        let f: u64 = flag.bits_spec();
        let r: u64 = after.bits_spec();
        assert(r & f == 0 && a & r == r) by (bit_vector)
            requires
                r == a & !f,
        ;
    }

    /// Law: every bit pattern is a valid signal set, so reading a set back
    /// from its bits never fails and gives the same set.
    pub proof fn law_from_bits_total(bits: u64)
        ensures
            bits & SIGNAL_ALL == bits,
    {
        assert(bits & 0xffff_ffff_ffff_ffffu64 == bits) by (bit_vector);
    }
}


// ---------------------------------------------------------------------------
// clone options
// ---------------------------------------------------------------------------
pub const CLONE_NEWTIME: u32 = 0x80;
/// Share the address space.
pub const CLONE_VM: u32 = 0x100;
/// Share the file system information.
pub const CLONE_FS: u32 = 0x200;
/// Share the file descriptor table.
pub const CLONE_FILES: u32 = 0x400;
/// Share the signal handlers.
pub const CLONE_SIGHAND: u32 = 0x800;
/// Create a file descriptor that refers to the child, for `pidfd_open`.
pub const CLONE_PIDFD: u32 = 0x1000;
/// For `ptrace`.
pub const CLONE_PTRACE: u32 = 0x2000;
/// The parent blocks after the creation until the child exits.
pub const CLONE_VFORK: u32 = 0x4000;
/// The child gets the parent's parent: a sibling rather than a child.
pub const CLONE_PARENT: u32 = 0x8000;
/// Created as a thread: the parent is set as with `CLONE_PARENT`, and it cannot be waited for.
pub const CLONE_THREAD: u32 = 0x1_0000;
/// The child uses a new namespace.
pub const CLONE_NEWNS: u32 = 0x2_0000;
/// The child shares the semaphores, for `semop`.
pub const CLONE_SYSVSEM: u32 = 0x4_0000;
/// Set the thread-local storage.
pub const CLONE_SETTLS: u32 = 0x8_0000;
/// Write the child's tid at an address of the parent.
pub const CLONE_PARENT_SETTID: u32 = 0x10_0000;
/// Clear an address of the child when it exits; a futex there is woken.
pub const CLONE_CHILD_CLEARTID: u32 = 0x20_0000;
/// Legacy flag, ignored.
pub const CLONE_DETACHED: u32 = 0x40_0000;
/// Related to `ptrace`.
pub const CLONE_UNTRACED: u32 = 0x80_0000;
/// Write the child's tid at an address of the child.
pub const CLONE_CHILD_SETTID: u32 = 0x100_0000;
/// New pid namespace.
pub const CLONE_NEWPID: u32 = 0x2000_0000;

/// Every named `clone` option.
pub const CLONE_ALL: u32 = 0x21ff_ff80u32;

/// Options of `clone`.
#[derive(Clone, Copy, Debug, PartialEq, Eq, Structural)]
pub struct CloneFlags {
    bits: u32,
}

impl CloneFlags {
    /// The raw bits of the set.
    pub closed spec fn bits_spec(&self) -> u32 {
        self.bits
    }

    /// Two sets are the same value exactly when their bits agree.
    pub broadcast proof fn lemma_eq_by_bits(a: Self, b: Self)
        ensures
            #[trigger] a.bits_spec() == #[trigger] b.bits_spec() <==> a == b,
    {
    }

    #[verifier::when_used_as_spec(bits_spec)]
    pub fn bits(&self) -> (r: u32)
        ensures
            r == self.bits_spec(),
    {
        self.bits
    }

    /// The set with exactly the given bits, named or not.
    pub fn from_bits_retain(bits: u32) -> (r: Self)
        ensures
            r.bits_spec() == bits,
    {
        CloneFlags { bits }
    }

    /// The set of the given bits, or `None` if a bit is not a named option.
    pub fn from_bits(bits: u32) -> (r: Option<Self>)
        ensures
            r is Some <==> bits & CLONE_ALL == bits,
            r matches Some(f) ==> f.bits_spec() == bits,
    {
        if bits & CLONE_ALL == bits {
            Some(CloneFlags { bits })
        } else {
            None
        }
    }

    /// The set of the named options among the given bits.
    pub fn from_bits_truncate(bits: u32) -> (r: Self)
        ensures
            r.bits_spec() == bits & CLONE_ALL,
    {
        CloneFlags { bits: bits & CLONE_ALL }
    }

    pub fn empty() -> (r: Self)
        ensures
            r.bits_spec() == 0,
    {
        CloneFlags { bits: 0 }
    }

    pub fn all() -> (r: Self)
        ensures
            r.bits_spec() == CLONE_ALL,
    {
        CloneFlags { bits: CLONE_ALL }
    }

    pub open spec fn is_empty_spec(&self) -> bool {
        self.bits_spec() == 0
    }

    #[verifier::when_used_as_spec(is_empty_spec)]
    pub fn is_empty(&self) -> (r: bool)
        ensures
            r == self.is_empty_spec(),
    {
        self.bits == 0
    }

    pub open spec fn contains_spec(&self, other: Self) -> bool {
        self.bits_spec() & other.bits_spec() == other.bits_spec()
    }

    /// Whether every option of `other` is in `self`.
    #[verifier::when_used_as_spec(contains_spec)]
    pub fn contains(&self, other: Self) -> (r: bool)
        ensures
            r == self.contains_spec(other),
    {
        self.bits & other.bits == other.bits
    }

    pub open spec fn intersects_spec(&self, other: Self) -> bool {
        self.bits_spec() & other.bits_spec() != 0
    }

    /// Whether some option of `other` is in `self`.
    #[verifier::when_used_as_spec(intersects_spec)]
    pub fn intersects(&self, other: Self) -> (r: bool)
        ensures
            r == self.intersects_spec(other),
    {
        self.bits & other.bits != 0
    }

    /// Adds the options of `other`.
    pub fn insert(&mut self, other: Self)
        ensures
            final(self).bits_spec() == old(self).bits_spec() | other.bits_spec(),
            *final(self) == old(self).union_spec(other),
    {
        self.bits = self.bits | other.bits;
    }

    /// Takes out the options of `other`.
    pub fn remove(&mut self, other: Self)
        ensures
            final(self).bits_spec() == old(self).bits_spec() & !other.bits_spec(),
            *final(self) == old(self).difference_spec(other),
    {
        self.bits = self.bits & !other.bits;
    }

    /// Law: keeping only the named options of any bits gives a set that
    /// `from_bits` accepts, and doing it twice changes nothing.
    pub proof fn law_truncate_is_valid(bits: u32)
        ensures
            (bits & CLONE_ALL) & CLONE_ALL == bits & CLONE_ALL,
    {
        assert((bits & 0x21ff_ff80u32) & 0x21ff_ff80u32 == bits & 0x21ff_ff80u32) by (bit_vector);
    }
}

// ---------------------------------------------------------------------------
// wait4 options
// ---------------------------------------------------------------------------
/// Do not suspend the caller, return at once.
pub const WNOHANG: u32 = 0x1;
/// Report the state of stopped user processes.
pub const WIMTRACED: u32 = 0x2;
/// Report the state of user processes that have not ended yet.
pub const WCONTINUED: u32 = 0x8;
/// Wait for any child.
pub const WALL: u32 = 0x4000_0000;
/// Wait for cloned processes.
pub const WCLONE: u32 = 0x8000_0000;

/// Every named `wait4` option.
pub const WAIT_ALL: u32 = 0xc000_000bu32;

/// Options of `wait4`.
#[derive(Clone, Copy, Debug, PartialEq, Eq, Structural)]
pub struct WaitFlags {
    bits: u32,
}

impl WaitFlags {
    /// The raw bits of the set.
    pub closed spec fn bits_spec(&self) -> u32 {
        self.bits
    }

    /// Two sets are the same value exactly when their bits agree.
    pub broadcast proof fn lemma_eq_by_bits(a: Self, b: Self)
        ensures
            #[trigger] a.bits_spec() == #[trigger] b.bits_spec() <==> a == b,
    {
    }

    #[verifier::when_used_as_spec(bits_spec)]
    pub fn bits(&self) -> (r: u32)
        ensures
            r == self.bits_spec(),
    {
        self.bits
    }

    /// The set with exactly the given bits, named or not.
    pub fn from_bits_retain(bits: u32) -> (r: Self)
        ensures
            r.bits_spec() == bits,
    {
        WaitFlags { bits }
    }

    /// The set of the given bits, or `None` if a bit is not a named option.
    pub fn from_bits(bits: u32) -> (r: Option<Self>)
        ensures
            r is Some <==> bits & WAIT_ALL == bits,
            r matches Some(f) ==> f.bits_spec() == bits,
    {
        if bits & WAIT_ALL == bits {
            Some(WaitFlags { bits })
        } else {
            None
        }
    }

    /// The set of the named options among the given bits.
    pub fn from_bits_truncate(bits: u32) -> (r: Self)
        ensures
            r.bits_spec() == bits & WAIT_ALL,
    {
        WaitFlags { bits: bits & WAIT_ALL }
    }

    pub fn empty() -> (r: Self)
        ensures
            r.bits_spec() == 0,
    {
        WaitFlags { bits: 0 }
    }

    pub fn all() -> (r: Self)
        ensures
            r.bits_spec() == WAIT_ALL,
    {
        WaitFlags { bits: WAIT_ALL }
    }

    pub open spec fn is_empty_spec(&self) -> bool {
        self.bits_spec() == 0
    }

    #[verifier::when_used_as_spec(is_empty_spec)]
    pub fn is_empty(&self) -> (r: bool)
        ensures
            r == self.is_empty_spec(),
    {
        self.bits == 0
    }

    pub open spec fn contains_spec(&self, other: Self) -> bool {
        self.bits_spec() & other.bits_spec() == other.bits_spec()
    }

    /// Whether every option of `other` is in `self`.
    #[verifier::when_used_as_spec(contains_spec)]
    pub fn contains(&self, other: Self) -> (r: bool)
        ensures
            r == self.contains_spec(other),
    {
        self.bits & other.bits == other.bits
    }

    pub open spec fn intersects_spec(&self, other: Self) -> bool {
        self.bits_spec() & other.bits_spec() != 0
    }

    /// Whether some option of `other` is in `self`.
    #[verifier::when_used_as_spec(intersects_spec)]
    pub fn intersects(&self, other: Self) -> (r: bool)
        ensures
            r == self.intersects_spec(other),
    {
        self.bits & other.bits != 0
    }

    /// Adds the options of `other`.
    pub fn insert(&mut self, other: Self)
        ensures
            final(self).bits_spec() == old(self).bits_spec() | other.bits_spec(),
            *final(self) == old(self).union_spec(other),
    {
        self.bits = self.bits | other.bits;
    }

    /// Takes out the options of `other`.
    pub fn remove(&mut self, other: Self)
        ensures
            final(self).bits_spec() == old(self).bits_spec() & !other.bits_spec(),
            *final(self) == old(self).difference_spec(other),
    {
        self.bits = self.bits & !other.bits;
    }

    /// Law: keeping only the named options of any bits gives a set that
    /// `from_bits` accepts, and doing it twice changes nothing.
    pub proof fn law_truncate_is_valid(bits: u32)
        ensures
            (bits & WAIT_ALL) & WAIT_ALL == bits & WAIT_ALL,
    {
        assert((bits & 0xc000_000bu32) & 0xc000_000bu32 == bits & 0xc000_000bu32) by (bit_vector);
    }
}


/// The masks of all named flags are the unions of the named flags.
pub proof fn lemma_all_masks()
    ensures
        WAIT_ALL == WNOHANG | WIMTRACED | WCONTINUED | WALL | WCLONE,
        CLONE_ALL == CLONE_NEWTIME | CLONE_VM | CLONE_FS | CLONE_FILES | CLONE_SIGHAND
            | CLONE_PIDFD | CLONE_PTRACE | CLONE_VFORK | CLONE_PARENT | CLONE_THREAD
            | CLONE_NEWNS | CLONE_SYSVSEM | CLONE_SETTLS | CLONE_PARENT_SETTID
            | CLONE_CHILD_CLEARTID | CLONE_DETACHED | CLONE_UNTRACED | CLONE_CHILD_SETTID
            | CLONE_NEWPID,
{
    assert(0xc000_000bu32 == 0x1u32 | 0x2u32 | 0x8u32 | 0x4000_0000u32 | 0x8000_0000u32)
        by (bit_vector);
    assert(0x21ff_ff80u32 == 0x80u32 | 0x100u32 | 0x200u32 | 0x400u32 | 0x800u32 | 0x1000u32
        | 0x2000u32 | 0x4000u32 | 0x8000u32 | 0x1_0000u32 | 0x2_0000u32 | 0x4_0000u32
        | 0x8_0000u32 | 0x10_0000u32 | 0x20_0000u32 | 0x40_0000u32 | 0x80_0000u32
        | 0x100_0000u32 | 0x2000_0000u32) by (bit_vector);
}


impl SignalFlags {
    /// The signals that are in `self` or in `other`.
    pub fn union(self, other: Self) -> (r: Self)
        ensures
            r == self.union_spec(other),
    {
        SignalFlags { bits: self.bits | other.bits }
    }

    /// The signals that are in both `self` and `other`.
    pub fn intersection(self, other: Self) -> (r: Self)
        ensures
            r == self.intersection_spec(other),
    {
        SignalFlags { bits: self.bits & other.bits }
    }

    /// The signals of `self` that are not in `other`.
    pub fn difference(self, other: Self) -> (r: Self)
        ensures
            r == self.difference_spec(other),
    {
        SignalFlags { bits: self.bits & !other.bits }
    }

    /// The signals that are in exactly one of `self` and `other`.
    pub fn symmetric_difference(self, other: Self) -> (r: Self)
        ensures
            r == self.symmetric_difference_spec(other),
    {
        SignalFlags { bits: self.bits ^ other.bits }
    }

    /// The named signals that are not in `self`.
    pub fn complement(self) -> (r: Self)
        ensures
            r == self.complement_spec(),
    {
        SignalFlags { bits: !self.bits & SIGNAL_ALL }
    }

    /// Flips the signals of `other`: those in `self` leave, the others enter.
    pub fn toggle(&mut self, other: Self)
        ensures
            final(self).bits_spec() == old(self).bits_spec() ^ other.bits_spec(),
            *final(self) == old(self).symmetric_difference_spec(other),
    {
        self.bits = self.bits ^ other.bits;
    }

    /// Inserts the signals of `other` when `value` holds, removes them otherwise.
    pub fn set(&mut self, other: Self, value: bool)
        ensures
            final(self).bits_spec() == (if value {
                old(self).bits_spec() | other.bits_spec()
            } else {
                old(self).bits_spec() & !other.bits_spec()
            }),
            *final(self) == (if value {
                old(self).union_spec(other)
            } else {
                old(self).difference_spec(other)
            }),
    {
        if value {
            self.insert(other);
        } else {
            self.remove(other);
        }
    }
}

impl core::ops::BitOr for SignalFlags {
    type Output = Self;

    /// `self | other` is the union.
    fn bitor(self, other: Self) -> (r: Self)
        ensures
            r == self.union_spec(other),
    {
        self.union(other)
    }
}

impl vstd::std_specs::ops::BitOrSpecImpl for SignalFlags {
    open spec fn obeys_bitor_spec() -> bool {
        true
    }

    open spec fn bitor_req(self, rhs: Self) -> bool {
        true
    }

    open spec fn bitor_spec(self, rhs: Self) -> Self {
        self.union_spec(rhs)
    }
}

impl core::ops::BitAnd for SignalFlags {
    type Output = Self;

    /// `self & other` is the intersection.
    fn bitand(self, other: Self) -> (r: Self)
        ensures
            r == self.intersection_spec(other),
    {
        self.intersection(other)
    }
}

impl vstd::std_specs::ops::BitAndSpecImpl for SignalFlags {
    open spec fn obeys_bitand_spec() -> bool {
        true
    }

    open spec fn bitand_req(self, rhs: Self) -> bool {
        true
    }

    open spec fn bitand_spec(self, rhs: Self) -> Self {
        self.intersection_spec(rhs)
    }
}

impl core::ops::BitXor for SignalFlags {
    type Output = Self;

    /// `self ^ other` is the symmetric difference.
    fn bitxor(self, other: Self) -> (r: Self)
        ensures
            r == self.symmetric_difference_spec(other),
    {
        self.symmetric_difference(other)
    }
}

impl vstd::std_specs::ops::BitXorSpecImpl for SignalFlags {
    open spec fn obeys_bitxor_spec() -> bool {
        true
    }

    open spec fn bitxor_req(self, rhs: Self) -> bool {
        true
    }

    open spec fn bitxor_spec(self, rhs: Self) -> Self {
        self.symmetric_difference_spec(rhs)
    }
}

impl core::ops::Sub for SignalFlags {
    type Output = Self;

    /// `self - other` is the difference.
    fn sub(self, other: Self) -> (r: Self)
        ensures
            r == self.difference_spec(other),
    {
        self.difference(other)
    }
}

impl vstd::std_specs::ops::SubSpecImpl for SignalFlags {
    open spec fn obeys_sub_spec() -> bool {
        true
    }

    open spec fn sub_req(self, rhs: Self) -> bool {
        true
    }

    open spec fn sub_spec(self, rhs: Self) -> Self {
        self.difference_spec(rhs)
    }
}

impl core::ops::Not for SignalFlags {
    type Output = Self;

    /// `!self` is the complement.
    fn not(self) -> (r: Self)
        ensures
            r == self.complement_spec(),
    {
        self.complement()
    }
}

impl vstd::std_specs::ops::NotSpecImpl for SignalFlags {
    open spec fn obeys_not_spec() -> bool {
        true
    }

    open spec fn not_req(self) -> bool {
        true
    }

    open spec fn not_spec(self) -> Self {
        self.complement_spec()
    }
}

impl CloneFlags {
    pub closed spec fn from_bits_retain_spec(bits: u32) -> Self {
        CloneFlags { bits }
    }

    /// The set made from some bits has those bits.
    pub broadcast proof fn lemma_retain_bits(bits: u32)
        ensures
            (#[trigger] Self::from_bits_retain_spec(bits)).bits_spec() == bits,
    {
    }

    /// The options that are in `self` or in `other`.
    pub fn union(self, other: Self) -> (r: Self)
        ensures
            r == self.union_spec(other),
    {
        CloneFlags { bits: self.bits | other.bits }
    }

    /// The options that are in both `self` and `other`.
    pub fn intersection(self, other: Self) -> (r: Self)
        ensures
            r == self.intersection_spec(other),
    {
        CloneFlags { bits: self.bits & other.bits }
    }

    /// The options of `self` that are not in `other`.
    pub fn difference(self, other: Self) -> (r: Self)
        ensures
            r == self.difference_spec(other),
    {
        CloneFlags { bits: self.bits & !other.bits }
    }

    /// The options that are in exactly one of `self` and `other`.
    pub fn symmetric_difference(self, other: Self) -> (r: Self)
        ensures
            r == self.symmetric_difference_spec(other),
    {
        CloneFlags { bits: self.bits ^ other.bits }
    }

    /// The named options that are not in `self`.
    pub fn complement(self) -> (r: Self)
        ensures
            r == self.complement_spec(),
    {
        CloneFlags { bits: !self.bits & CLONE_ALL }
    }

    /// Flips the options of `other`: those in `self` leave, the others enter.
    pub fn toggle(&mut self, other: Self)
        ensures
            final(self).bits_spec() == old(self).bits_spec() ^ other.bits_spec(),
            *final(self) == old(self).symmetric_difference_spec(other),
    {
        self.bits = self.bits ^ other.bits;
    }

    /// Inserts the options of `other` when `value` holds, removes them otherwise.
    pub fn set(&mut self, other: Self, value: bool)
        ensures
            final(self).bits_spec() == (if value {
                old(self).bits_spec() | other.bits_spec()
            } else {
                old(self).bits_spec() & !other.bits_spec()
            }),
            *final(self) == (if value {
                old(self).union_spec(other)
            } else {
                old(self).difference_spec(other)
            }),
    {
        if value {
            self.insert(other);
        } else {
            self.remove(other);
        }
    }
}

impl core::ops::BitOr for CloneFlags {
    type Output = Self;

    /// `self | other` is the union.
    fn bitor(self, other: Self) -> (r: Self)
        ensures
            r == self.union_spec(other),
    {
        self.union(other)
    }
}

impl vstd::std_specs::ops::BitOrSpecImpl for CloneFlags {
    open spec fn obeys_bitor_spec() -> bool {
        true
    }

    open spec fn bitor_req(self, rhs: Self) -> bool {
        true
    }

    open spec fn bitor_spec(self, rhs: Self) -> Self {
        self.union_spec(rhs)
    }
}

impl core::ops::BitAnd for CloneFlags {
    type Output = Self;

    /// `self & other` is the intersection.
    fn bitand(self, other: Self) -> (r: Self)
        ensures
            r == self.intersection_spec(other),
    {
        self.intersection(other)
    }
}

impl vstd::std_specs::ops::BitAndSpecImpl for CloneFlags {
    open spec fn obeys_bitand_spec() -> bool {
        true
    }

    open spec fn bitand_req(self, rhs: Self) -> bool {
        true
    }

    open spec fn bitand_spec(self, rhs: Self) -> Self {
        self.intersection_spec(rhs)
    }
}

impl core::ops::BitXor for CloneFlags {
    type Output = Self;

    /// `self ^ other` is the symmetric difference.
    fn bitxor(self, other: Self) -> (r: Self)
        ensures
            r == self.symmetric_difference_spec(other),
    {
        self.symmetric_difference(other)
    }
}

impl vstd::std_specs::ops::BitXorSpecImpl for CloneFlags {
    open spec fn obeys_bitxor_spec() -> bool {
        true
    }

    open spec fn bitxor_req(self, rhs: Self) -> bool {
        true
    }

    open spec fn bitxor_spec(self, rhs: Self) -> Self {
        self.symmetric_difference_spec(rhs)
    }
}

impl core::ops::Sub for CloneFlags {
    type Output = Self;

    /// `self - other` is the difference.
    fn sub(self, other: Self) -> (r: Self)
        ensures
            r == self.difference_spec(other),
    {
        self.difference(other)
    }
}

impl vstd::std_specs::ops::SubSpecImpl for CloneFlags {
    open spec fn obeys_sub_spec() -> bool {
        true
    }

    open spec fn sub_req(self, rhs: Self) -> bool {
        true
    }

    open spec fn sub_spec(self, rhs: Self) -> Self {
        self.difference_spec(rhs)
    }
}

impl core::ops::Not for CloneFlags {
    type Output = Self;

    /// `!self` is the complement.
    fn not(self) -> (r: Self)
        ensures
            r == self.complement_spec(),
    {
        self.complement()
    }
}

impl vstd::std_specs::ops::NotSpecImpl for CloneFlags {
    open spec fn obeys_not_spec() -> bool {
        true
    }

    open spec fn not_req(self) -> bool {
        true
    }

    open spec fn not_spec(self) -> Self {
        self.complement_spec()
    }
}

impl WaitFlags {
    pub closed spec fn from_bits_retain_spec(bits: u32) -> Self {
        WaitFlags { bits }
    }

    /// The set made from some bits has those bits.
    pub broadcast proof fn lemma_retain_bits(bits: u32)
        ensures
            (#[trigger] Self::from_bits_retain_spec(bits)).bits_spec() == bits,
    {
    }

    /// The options that are in `self` or in `other`.
    pub fn union(self, other: Self) -> (r: Self)
        ensures
            r == self.union_spec(other),
    {
        WaitFlags { bits: self.bits | other.bits }
    }

    /// The options that are in both `self` and `other`.
    pub fn intersection(self, other: Self) -> (r: Self)
        ensures
            r == self.intersection_spec(other),
    {
        WaitFlags { bits: self.bits & other.bits }
    }

    /// The options of `self` that are not in `other`.
    pub fn difference(self, other: Self) -> (r: Self)
        ensures
            r == self.difference_spec(other),
    {
        WaitFlags { bits: self.bits & !other.bits }
    }

    /// The options that are in exactly one of `self` and `other`.
    pub fn symmetric_difference(self, other: Self) -> (r: Self)
        ensures
            r == self.symmetric_difference_spec(other),
    {
        WaitFlags { bits: self.bits ^ other.bits }
    }

    /// The named options that are not in `self`.
    pub fn complement(self) -> (r: Self)
        ensures
            r == self.complement_spec(),
    {
        WaitFlags { bits: !self.bits & WAIT_ALL }
    }

    /// Flips the options of `other`: those in `self` leave, the others enter.
    pub fn toggle(&mut self, other: Self)
        ensures
            final(self).bits_spec() == old(self).bits_spec() ^ other.bits_spec(),
            *final(self) == old(self).symmetric_difference_spec(other),
    {
        self.bits = self.bits ^ other.bits;
    }

    /// Inserts the options of `other` when `value` holds, removes them otherwise.
    pub fn set(&mut self, other: Self, value: bool)
        ensures
            final(self).bits_spec() == (if value {
                old(self).bits_spec() | other.bits_spec()
            } else {
                old(self).bits_spec() & !other.bits_spec()
            }),
            *final(self) == (if value {
                old(self).union_spec(other)
            } else {
                old(self).difference_spec(other)
            }),
    {
        if value {
            self.insert(other);
        } else {
            self.remove(other);
        }
    }
}

impl core::ops::BitOr for WaitFlags {
    type Output = Self;

    /// `self | other` is the union.
    fn bitor(self, other: Self) -> (r: Self)
        ensures
            r == self.union_spec(other),
    {
        self.union(other)
    }
}

impl vstd::std_specs::ops::BitOrSpecImpl for WaitFlags {
    open spec fn obeys_bitor_spec() -> bool {
        true
    }

    open spec fn bitor_req(self, rhs: Self) -> bool {
        true
    }

    open spec fn bitor_spec(self, rhs: Self) -> Self {
        self.union_spec(rhs)
    }
}

impl core::ops::BitAnd for WaitFlags {
    type Output = Self;

    /// `self & other` is the intersection.
    fn bitand(self, other: Self) -> (r: Self)
        ensures
            r == self.intersection_spec(other),
    {
        self.intersection(other)
    }
}

impl vstd::std_specs::ops::BitAndSpecImpl for WaitFlags {
    open spec fn obeys_bitand_spec() -> bool {
        true
    }

    open spec fn bitand_req(self, rhs: Self) -> bool {
        true
    }

    open spec fn bitand_spec(self, rhs: Self) -> Self {
        self.intersection_spec(rhs)
    }
}

impl core::ops::BitXor for WaitFlags {
    type Output = Self;

    /// `self ^ other` is the symmetric difference.
    fn bitxor(self, other: Self) -> (r: Self)
        ensures
            r == self.symmetric_difference_spec(other),
    {
        self.symmetric_difference(other)
    }
}

impl vstd::std_specs::ops::BitXorSpecImpl for WaitFlags {
    open spec fn obeys_bitxor_spec() -> bool {
        true
    }

    open spec fn bitxor_req(self, rhs: Self) -> bool {
        true
    }

    open spec fn bitxor_spec(self, rhs: Self) -> Self {
        self.symmetric_difference_spec(rhs)
    }
}

impl core::ops::Sub for WaitFlags {
    type Output = Self;

    /// `self - other` is the difference.
    fn sub(self, other: Self) -> (r: Self)
        ensures
            r == self.difference_spec(other),
    {
        self.difference(other)
    }
}

impl vstd::std_specs::ops::SubSpecImpl for WaitFlags {
    open spec fn obeys_sub_spec() -> bool {
        true
    }

    open spec fn sub_req(self, rhs: Self) -> bool {
        true
    }

    open spec fn sub_spec(self, rhs: Self) -> Self {
        self.difference_spec(rhs)
    }
}

impl core::ops::Not for WaitFlags {
    type Output = Self;

    /// `!self` is the complement.
    fn not(self) -> (r: Self)
        ensures
            r == self.complement_spec(),
    {
        self.complement()
    }
}

impl vstd::std_specs::ops::NotSpecImpl for WaitFlags {
    open spec fn obeys_not_spec() -> bool {
        true
    }

    open spec fn not_req(self) -> bool {
        true
    }

    open spec fn not_spec(self) -> Self {
        self.complement_spec()
    }
}


impl SignalFlags {
    /// The signals in `self` or in `other`.
    pub open spec fn union_spec(self, other: Self) -> Self {
        Self::from_bits_retain_spec(self.bits_spec() | other.bits_spec())
    }

    /// The signals in both `self` and `other`.
    pub open spec fn intersection_spec(self, other: Self) -> Self {
        Self::from_bits_retain_spec(self.bits_spec() & other.bits_spec())
    }

    /// The signals of `self` not in `other`.
    pub open spec fn difference_spec(self, other: Self) -> Self {
        Self::from_bits_retain_spec(self.bits_spec() & !other.bits_spec())
    }

    /// The signals in exactly one of `self` and `other`.
    pub open spec fn symmetric_difference_spec(self, other: Self) -> Self {
        Self::from_bits_retain_spec(self.bits_spec() ^ other.bits_spec())
    }

    /// The named signals not in `self`.
    pub open spec fn complement_spec(self) -> Self {
        Self::from_bits_retain_spec(!self.bits_spec() & SIGNAL_ALL)
    }

    /// Law: the union holds both sets and nothing else; the intersection is
    /// held by both and holds every set that both hold; the difference is
    /// held by `a`, shares nothing with `b`, and together with the
    /// intersection gives back `a`; the symmetric difference is the union
    /// without the intersection.
    pub proof fn law_set_algebra(a: Self, b: Self, c: Self)
        ensures
            a.union_spec(b).contains_spec(a),
            a.union_spec(b).contains_spec(b),
            a.union_spec(b).bits_spec() & !a.bits_spec() & !b.bits_spec() == 0,
            a.contains_spec(a.intersection_spec(b)),
            b.contains_spec(a.intersection_spec(b)),
            a.contains_spec(c) && b.contains_spec(c) ==> a.intersection_spec(b).contains_spec(c),
            a.contains_spec(a.difference_spec(b)),
            !a.difference_spec(b).intersects_spec(b),
            a.difference_spec(b).union_spec(a.intersection_spec(b)) == a,
            a.symmetric_difference_spec(b) == a.union_spec(b).difference_spec(
                a.intersection_spec(b),
            ),
    {
        let x: u64 = a.bits_spec();
        let y: u64 = b.bits_spec();
        let z: u64 = c.bits_spec();
        assert((x | y) & x == x && (x | y) & y == y && (x | y) & !x & !y == 0 && x & (x & y) == (x
            & y) && y & (x & y) == (x & y) && ((x & z == z && y & z == z) ==> (x & y) & z == z) && x
            & (x & !y) == (x & !y) && (x & !y) & y == 0 && ((x & !y) | (x & y)) == x && (x ^ y) == (x
            | y) & !(x & y)) by (bit_vector);
        Self::lemma_retain_bits(x | y);
        Self::lemma_retain_bits(x & y);
        Self::lemma_retain_bits(x & !y);
        Self::lemma_retain_bits(x ^ y);
        Self::lemma_retain_bits((x & !y) | (x & y));
        Self::lemma_retain_bits((x | y) & !(x & y));
        Self::lemma_eq_by_bits(a.difference_spec(b).union_spec(a.intersection_spec(b)), a);
        Self::lemma_eq_by_bits(
            a.symmetric_difference_spec(b),
            a.union_spec(b).difference_spec(a.intersection_spec(b)),
        );
    }

    /// Law: the complement shares nothing with the set, holds only named
    /// signals, and together with the set holds every named signal;
    /// toggling twice gives back the set.
    pub proof fn law_complement_and_toggle(a: Self, b: Self)
        ensures
            !a.intersects_spec(a.complement_spec()),
            a.complement_spec().bits_spec() & !SIGNAL_ALL == 0,
            a.union_spec(a.complement_spec()).contains_spec(Self::from_bits_retain_spec(SIGNAL_ALL)),
            a.symmetric_difference_spec(b).symmetric_difference_spec(b) == a,
    {
        let x: u64 = a.bits_spec();
        let y: u64 = b.bits_spec();
        let m: u64 = SIGNAL_ALL;
        assert(x & (!x & m) == 0 && (!x & m) & !m == 0 && (x | (!x & m)) & m == m && (x ^ y) ^ y
            == x) by (bit_vector);
        Self::lemma_retain_bits(!x & m);
        Self::lemma_retain_bits(x | (!x & m));
        Self::lemma_retain_bits(m);
        Self::lemma_retain_bits(x ^ y);
        Self::lemma_retain_bits((x ^ y) ^ y);
        Self::lemma_eq_by_bits(a.symmetric_difference_spec(b).symmetric_difference_spec(b), a);
    }
}

impl CloneFlags {
    /// The options in `self` or in `other`.
    pub open spec fn union_spec(self, other: Self) -> Self {
        Self::from_bits_retain_spec(self.bits_spec() | other.bits_spec())
    }

    /// The options in both `self` and `other`.
    pub open spec fn intersection_spec(self, other: Self) -> Self {
        Self::from_bits_retain_spec(self.bits_spec() & other.bits_spec())
    }

    /// The options of `self` not in `other`.
    pub open spec fn difference_spec(self, other: Self) -> Self {
        Self::from_bits_retain_spec(self.bits_spec() & !other.bits_spec())
    }

    /// The options in exactly one of `self` and `other`.
    pub open spec fn symmetric_difference_spec(self, other: Self) -> Self {
        Self::from_bits_retain_spec(self.bits_spec() ^ other.bits_spec())
    }

    /// The named options not in `self`.
    pub open spec fn complement_spec(self) -> Self {
        Self::from_bits_retain_spec(!self.bits_spec() & CLONE_ALL)
    }

    /// Law: the union holds both sets and nothing else; the intersection is
    /// held by both and holds every set that both hold; the difference is
    /// held by `a`, shares nothing with `b`, and together with the
    /// intersection gives back `a`; the symmetric difference is the union
    /// without the intersection.
    pub proof fn law_set_algebra(a: Self, b: Self, c: Self)
        ensures
            a.union_spec(b).contains_spec(a),
            a.union_spec(b).contains_spec(b),
            a.union_spec(b).bits_spec() & !a.bits_spec() & !b.bits_spec() == 0,
            a.contains_spec(a.intersection_spec(b)),
            b.contains_spec(a.intersection_spec(b)),
            a.contains_spec(c) && b.contains_spec(c) ==> a.intersection_spec(b).contains_spec(c),
            a.contains_spec(a.difference_spec(b)),
            !a.difference_spec(b).intersects_spec(b),
            a.difference_spec(b).union_spec(a.intersection_spec(b)) == a,
            a.symmetric_difference_spec(b) == a.union_spec(b).difference_spec(
                a.intersection_spec(b),
            ),
    {
        let x: u32 = a.bits_spec();
        let y: u32 = b.bits_spec();
        let z: u32 = c.bits_spec();
        assert((x | y) & x == x && (x | y) & y == y && (x | y) & !x & !y == 0 && x & (x & y) == (x
            & y) && y & (x & y) == (x & y) && ((x & z == z && y & z == z) ==> (x & y) & z == z) && x
            & (x & !y) == (x & !y) && (x & !y) & y == 0 && ((x & !y) | (x & y)) == x && (x ^ y) == (x
            | y) & !(x & y)) by (bit_vector);
        Self::lemma_retain_bits(x | y);
        Self::lemma_retain_bits(x & y);
        Self::lemma_retain_bits(x & !y);
        Self::lemma_retain_bits(x ^ y);
        Self::lemma_retain_bits((x & !y) | (x & y));
        Self::lemma_retain_bits((x | y) & !(x & y));
        Self::lemma_eq_by_bits(a.difference_spec(b).union_spec(a.intersection_spec(b)), a);
        Self::lemma_eq_by_bits(
            a.symmetric_difference_spec(b),
            a.union_spec(b).difference_spec(a.intersection_spec(b)),
        );
    }

    /// Law: the complement shares nothing with the set, holds only named
    /// options, and together with the set holds every named option;
    /// toggling twice gives back the set.
    pub proof fn law_complement_and_toggle(a: Self, b: Self)
        ensures
            !a.intersects_spec(a.complement_spec()),
            a.complement_spec().bits_spec() & !CLONE_ALL == 0,
            a.union_spec(a.complement_spec()).contains_spec(Self::from_bits_retain_spec(CLONE_ALL)),
            a.symmetric_difference_spec(b).symmetric_difference_spec(b) == a,
    {
        let x: u32 = a.bits_spec();
        let y: u32 = b.bits_spec();
        let m: u32 = CLONE_ALL;
        assert(x & (!x & m) == 0 && (!x & m) & !m == 0 && (x | (!x & m)) & m == m && (x ^ y) ^ y
            == x) by (bit_vector);
        Self::lemma_retain_bits(!x & m);
        Self::lemma_retain_bits(x | (!x & m));
        Self::lemma_retain_bits(m);
        Self::lemma_retain_bits(x ^ y);
        Self::lemma_retain_bits((x ^ y) ^ y);
        Self::lemma_eq_by_bits(a.symmetric_difference_spec(b).symmetric_difference_spec(b), a);
    }
}

impl WaitFlags {
    /// The options in `self` or in `other`.
    pub open spec fn union_spec(self, other: Self) -> Self {
        Self::from_bits_retain_spec(self.bits_spec() | other.bits_spec())
    }

    /// The options in both `self` and `other`.
    pub open spec fn intersection_spec(self, other: Self) -> Self {
        Self::from_bits_retain_spec(self.bits_spec() & other.bits_spec())
    }

    /// The options of `self` not in `other`.
    pub open spec fn difference_spec(self, other: Self) -> Self {
        Self::from_bits_retain_spec(self.bits_spec() & !other.bits_spec())
    }

    /// The options in exactly one of `self` and `other`.
    pub open spec fn symmetric_difference_spec(self, other: Self) -> Self {
        Self::from_bits_retain_spec(self.bits_spec() ^ other.bits_spec())
    }

    /// The named options not in `self`.
    pub open spec fn complement_spec(self) -> Self {
        Self::from_bits_retain_spec(!self.bits_spec() & WAIT_ALL)
    }

    /// Law: the union holds both sets and nothing else; the intersection is
    /// held by both and holds every set that both hold; the difference is
    /// held by `a`, shares nothing with `b`, and together with the
    /// intersection gives back `a`; the symmetric difference is the union
    /// without the intersection.
    pub proof fn law_set_algebra(a: Self, b: Self, c: Self)
        ensures
            a.union_spec(b).contains_spec(a),
            a.union_spec(b).contains_spec(b),
            a.union_spec(b).bits_spec() & !a.bits_spec() & !b.bits_spec() == 0,
            a.contains_spec(a.intersection_spec(b)),
            b.contains_spec(a.intersection_spec(b)),
            a.contains_spec(c) && b.contains_spec(c) ==> a.intersection_spec(b).contains_spec(c),
            a.contains_spec(a.difference_spec(b)),
            !a.difference_spec(b).intersects_spec(b),
            a.difference_spec(b).union_spec(a.intersection_spec(b)) == a,
            a.symmetric_difference_spec(b) == a.union_spec(b).difference_spec(
                a.intersection_spec(b),
            ),
    {
        let x: u32 = a.bits_spec();
        let y: u32 = b.bits_spec();
        let z: u32 = c.bits_spec();
        assert((x | y) & x == x && (x | y) & y == y && (x | y) & !x & !y == 0 && x & (x & y) == (x
            & y) && y & (x & y) == (x & y) && ((x & z == z && y & z == z) ==> (x & y) & z == z) && x
            & (x & !y) == (x & !y) && (x & !y) & y == 0 && ((x & !y) | (x & y)) == x && (x ^ y) == (x
            | y) & !(x & y)) by (bit_vector);
        Self::lemma_retain_bits(x | y);
        Self::lemma_retain_bits(x & y);
        Self::lemma_retain_bits(x & !y);
        Self::lemma_retain_bits(x ^ y);
        Self::lemma_retain_bits((x & !y) | (x & y));
        Self::lemma_retain_bits((x | y) & !(x & y));
        Self::lemma_eq_by_bits(a.difference_spec(b).union_spec(a.intersection_spec(b)), a);
        Self::lemma_eq_by_bits(
            a.symmetric_difference_spec(b),
            a.union_spec(b).difference_spec(a.intersection_spec(b)),
        );
    }

    /// Law: the complement shares nothing with the set, holds only named
    /// options, and together with the set holds every named option;
    /// toggling twice gives back the set.
    pub proof fn law_complement_and_toggle(a: Self, b: Self)
        ensures
            !a.intersects_spec(a.complement_spec()),
            a.complement_spec().bits_spec() & !WAIT_ALL == 0,
            a.union_spec(a.complement_spec()).contains_spec(Self::from_bits_retain_spec(WAIT_ALL)),
            a.symmetric_difference_spec(b).symmetric_difference_spec(b) == a,
    {
        let x: u32 = a.bits_spec();
        let y: u32 = b.bits_spec();
        let m: u32 = WAIT_ALL;
        assert(x & (!x & m) == 0 && (!x & m) & !m == 0 && (x | (!x & m)) & m == m && (x ^ y) ^ y
            == x) by (bit_vector);
        Self::lemma_retain_bits(!x & m);
        Self::lemma_retain_bits(x | (!x & m));
        Self::lemma_retain_bits(m);
        Self::lemma_retain_bits(x ^ y);
        Self::lemma_retain_bits((x ^ y) ^ y);
        Self::lemma_eq_by_bits(a.symmetric_difference_spec(b).symmetric_difference_spec(b), a);
    }
}

} // verus!
