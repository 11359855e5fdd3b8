//! System identity and file times.
use vstd::prelude::*;
use crate::ctypes::{UTIME_NOW, UTIME_OMIT};
use crate::errno::SysResult;
use vstd::string::StringSliceAdditionalSpecFns;

verus! {

/// The user id of the caller: always root.
pub fn sys_getuid() -> (r: SysResult)
    ensures
        r == Ok::<isize, crate::errno::SysError>(0),
{
    Ok(0)
}

/// The effective user id of the caller.
pub fn sys_geteuid() -> (r: SysResult)
    ensures
        r == Ok::<isize, crate::errno::SysError>(1000),
{
    Ok(1000)
}

/// The effective group id of the caller.
pub fn sys_getegid() -> (r: SysResult)
    ensures
        r == Ok::<isize, crate::errno::SysError>(1000),
{
    Ok(1000)
}

/// A field of `UtsName` holding `bytes`: the bytes, then zeros up to the
/// field's length.
pub open spec fn uts_field(bytes: Seq<u8>) -> Seq<u8> {
    bytes + Seq::new((65 - bytes.len()) as nat, |i: int| 0u8)
}

/// What `uname` reports.
pub struct UtsName {
    /// sysname
    pub sysname: [u8; 65],
    /// nodename
    pub nodename: [u8; 65],
    /// release
    pub release: [u8; 65],
    /// version
    pub version: [u8; 65],
    /// machine
    pub machine: [u8; 65],
    /// domainname
    pub domainname: [u8; 65],
}

impl UtsName {
    /// A field holding the bytes of `info`, padded with zeros.
    pub fn from_str(info: &str) -> (r: [u8; 65])
        requires
            info.spec_bytes().len() <= 65,
        ensures
            r@ == uts_field(info.spec_bytes()),
    {
        let mut data: [u8; 65] = [0; 65];
        let bytes = info.as_bytes();
        let mut i: usize = 0;
        while i < bytes.len()
            invariant
                bytes@ == info.spec_bytes(),
                bytes@.len() <= 65,
                i <= bytes@.len(),
                data@.len() == 65,
                forall|j: int| 0 <= j < i ==> data@[j] == bytes@[j],
                forall|j: int| i <= j < 65 ==> data@[j] == 0u8,
            decreases bytes@.len() - i,
        {
            data[i] = bytes[i];
            i += 1;
        }
        assert(data@ =~= uts_field(info.spec_bytes()));
        data
    }
}

impl Default for UtsName {
    fn default() -> (r: Self)
        ensures
            r.sysname@ == uts_field("Starry".spec_bytes()),
            r.nodename@ == uts_field("Starry - machine[0]".spec_bytes()),
            r.release@ == uts_field("10.0.0".spec_bytes()),
            r.version@ == uts_field("10.0.0".spec_bytes()),
            r.machine@ == uts_field("10.0.0".spec_bytes()),
            r.domainname@ == uts_field(
                "https://github.com/BattiestStone4/Starry-On-ArceOS".spec_bytes(),
            ),
    {
        proof {
            reveal_strlit("Starry");
            reveal_strlit("Starry - machine[0]");
            reveal_strlit("10.0.0");
            reveal_strlit("https://github.com/BattiestStone4/Starry-On-ArceOS");
            vstd::string::is_ascii_spec_bytes("Starry");
            vstd::string::is_ascii_spec_bytes("Starry - machine[0]");
            vstd::string::is_ascii_spec_bytes("10.0.0");
            vstd::string::is_ascii_spec_bytes("https://github.com/BattiestStone4/Starry-On-ArceOS");
        }
        Self {
            sysname: Self::from_str("Starry"),
            nodename: Self::from_str("Starry - machine[0]"),
            release: Self::from_str("10.0.0"),
            version: Self::from_str("10.0.0"),
            machine: Self::from_str("10.0.0"),
            domainname: Self::from_str("https://github.com/BattiestStone4/Starry-On-ArceOS"),
        }
    }
}

/// A `struct timespec`.
#[derive(Clone, Copy, Debug, PartialEq, Eq, Structural)]
pub struct Timespec {
    /// Seconds.
    pub tv_sec: i64,
    /// Nanoseconds.
    pub tv_nsec: i64,
}

/// Nanoseconds in a second.
pub const NANOS_PER_SEC: isize = 1_000_000_000;

/// `a / d` rounded toward zero, as integer division does.
pub open spec fn div_toward_zero(a: int, d: int) -> int {
    if a >= 0 {
        a / d
    } else {
        -((-a) / d)
    }
}

/// The remainder that goes with `div_toward_zero`: it has the sign of `a`.
pub open spec fn rem_toward_zero(a: int, d: int) -> int {
    a - d * div_toward_zero(a, d)
}

/// The current time `now_ns`, as seconds and nanoseconds.
pub open spec fn now_pair(now_ns: isize) -> Seq<isize> {
    seq![
        div_toward_zero(now_ns as int, 1_000_000_000) as isize,
        rem_toward_zero(now_ns as int, 1_000_000_000) as isize,
    ]
}

/// The time that `utimensat` sets from one requested `timespec`, as seconds
/// and nanoseconds: the requested time; or, for `UTIME_OMIT`, the current
/// second with nanoseconds `-1`; or, for `UTIME_NOW`, the current time.
pub open spec fn requested_time(now_ns: isize, t: Timespec) -> Seq<isize> {
    if t.tv_nsec != UTIME_OMIT as i64 && t.tv_nsec != UTIME_NOW as i64 {
        seq![t.tv_sec as isize, t.tv_nsec as isize]
    } else if t.tv_nsec == UTIME_OMIT as i64 {
        now_pair(now_ns).update(1, -1isize)
    } else {
        now_pair(now_ns)
    }
}

/// The access and modification times that `utimensat` sets, from the
/// current time in ns and the two requested times.
pub fn utimensat_times(now_ns: isize, times: [Timespec; 2]) -> (r: ([isize; 2], [isize; 2]))
    ensures
        r.0@ == requested_time(now_ns, times@[0]),
        r.1@ == requested_time(now_ns, times@[1]),
{
    let tv_sec: isize = now_ns / NANOS_PER_SEC;
    let tv_nsec: isize = now_ns % NANOS_PER_SEC;
    proof {
        assert(tv_sec == div_toward_zero(now_ns as int, 1_000_000_000)) by (nonlinear_arith)
            requires
                tv_sec * 1_000_000_000 + tv_nsec == now_ns,
                now_ns >= 0 ==> 0 <= tv_nsec < 1_000_000_000,
                now_ns < 0 ==> -1_000_000_000 < tv_nsec <= 0,
        ;
    }
    let mut atime: [isize; 2] = [tv_sec, tv_nsec];
    let mut mtime: [isize; 2] = [tv_sec, tv_nsec];
    let omit: i64 = UTIME_OMIT as i64;
    let now: i64 = UTIME_NOW as i64;
    if times[0].tv_nsec != omit && times[0].tv_nsec != now {
        atime[0] = times[0].tv_sec as isize;
        atime[1] = times[0].tv_nsec as isize;
    } else if times[0].tv_nsec == omit {
        atime[1] = -1;
    }
    if times[1].tv_nsec != omit && times[1].tv_nsec != now {
        mtime[0] = times[1].tv_sec as isize;
        mtime[1] = times[1].tv_nsec as isize;
    } else if times[1].tv_nsec == omit {
        mtime[1] = -1;
    }
    assert(atime@ =~= requested_time(now_ns, times@[0]));
    assert(mtime@ =~= requested_time(now_ns, times@[1]));
    (atime, mtime)
}

/// The path that `utimensat` treats as a request to do nothing.
pub open spec fn dummy_path_bytes() -> Seq<u8> {
    "/dev/null/invalid".spec_bytes()
}

/// Whether `path` is the path on which `utimensat` does nothing.
pub fn is_dummy_path(path: &str) -> (r: bool)
    ensures
        r == (path.spec_bytes() == dummy_path_bytes()),
{
    let a = path.as_bytes();
    let b = "/dev/null/invalid".as_bytes();
    if a.len() != b.len() {
        return false;
    }
    let mut i: usize = 0;
    while i < a.len()
        invariant
            a@ == path.spec_bytes(),
            b@ == dummy_path_bytes(),
            a@.len() == b@.len(),
            i <= a@.len(),
            forall|j: int| 0 <= j < i ==> a@[j] == b@[j],
        decreases a@.len() - i,
    {
        if a[i] != b[i] {
            return false;
        }
        i += 1;
    }
    assert(a@ =~= b@);
    true
}

/// Which file `utimensat` sets the times of.
#[derive(Debug, Clone, Copy, PartialEq, Eq, Structural)]
pub enum UtimeTarget {
    /// The file named by the path, resolved from `fd`.
    Path,
    /// The file open as `fd`.
    Fd,
    /// None: the call succeeds without doing anything.
    Nothing,
}

/// Which file `utimensat(fd, path, times, ..)` works on: none when `times`
/// cannot be read (the call then returns 0 and no time changes); else the
/// path when it can be read, else the open file `fd` unless `fd` is negative.
pub open spec fn utimensat_target_spec(fd: isize, times_readable: bool, path_readable: bool) -> UtimeTarget {
    if !times_readable {
        UtimeTarget::Nothing
    } else if path_readable {
        UtimeTarget::Path
    } else if fd < 0 {
        UtimeTarget::Nothing
    } else {
        UtimeTarget::Fd
    }
}

/// Chooses the file whose times `utimensat` sets; `Nothing` means the call
/// returns 0 at once and changes no time.
pub fn utimensat_target(fd: isize, times_readable: bool, path_readable: bool) -> (r: UtimeTarget)
    ensures
        r == utimensat_target_spec(fd, times_readable, path_readable),
{
    if !times_readable {
        return UtimeTarget::Nothing;
    }
    if path_readable {
        UtimeTarget::Path
    } else if fd < 0 {
        UtimeTarget::Nothing
    } else {
        UtimeTarget::Fd
    }
}

/// Law: when `times` cannot be read, `utimensat` touches no file, whatever
/// `fd` and the path are.
pub proof fn law_unreadable_times_change_nothing(fd: isize, path_readable: bool)
    ensures
        utimensat_target_spec(fd, false, path_readable) == UtimeTarget::Nothing,
{
}

/// Law: an explicit time is set as given, seconds and nanoseconds.
pub proof fn law_explicit_time_is_kept(now_ns: isize, t: Timespec)
    requires
        t.tv_nsec != UTIME_OMIT as i64,
        t.tv_nsec != UTIME_NOW as i64,
    ensures
        requested_time(now_ns, t)[0] == t.tv_sec as isize,
        requested_time(now_ns, t)[1] == t.tv_nsec as isize,
        requested_time(now_ns, t).len() == 2,
{
}

/// Law: `UTIME_NOW` sets the current time, split into whole seconds and the
/// nanoseconds left over (with the sign of the time); `UTIME_OMIT` sets the
/// current second with nanoseconds -1.
pub proof fn law_now_and_omit(now_ns: isize, t: Timespec)
    ensures
        t.tv_nsec == UTIME_NOW as i64 ==> {
            let r = requested_time(now_ns, t);
            &&& r.len() == 2
            &&& r[0] * 1_000_000_000 + r[1] == now_ns
            &&& now_ns >= 0 ==> 0 <= r[1] < 1_000_000_000
            &&& now_ns < 0 ==> -1_000_000_000 < r[1] <= 0
        },
        t.tv_nsec == UTIME_OMIT as i64 ==> {
            let r = requested_time(now_ns, t);
            &&& r.len() == 2
            &&& r[0] == requested_time(now_ns, Timespec { tv_sec: 0, tv_nsec: UTIME_NOW as i64 })[0]
            &&& r[1] == -1
        },
{
    let a: int = now_ns as int;
    let q: int = div_toward_zero(a, 1_000_000_000);
    assert(q * 1_000_000_000 + (a - 1_000_000_000 * q) == a) by (nonlinear_arith);
    if a >= 0 {
        assert(0 <= a - 1_000_000_000 * (a / 1_000_000_000) < 1_000_000_000) by (nonlinear_arith)
            requires
                a >= 0,
        ;
    } else {
        let b: int = -a;
        assert(0 <= b - 1_000_000_000 * (b / 1_000_000_000) < 1_000_000_000) by (nonlinear_arith)
            requires
                b > 0,
        ;
    }
    assert(isize::MIN <= q <= isize::MAX) by (nonlinear_arith)
        requires
            isize::MIN <= a <= isize::MAX,
            a >= 0 ==> q == a / 1_000_000_000,
            a < 0 ==> q == -((-a) / 1_000_000_000),
    ;
}

/// Law: a `UtsName` field is 65 bytes long, starts with the given bytes
/// and is zero after them.
pub proof fn law_uts_field(bytes: Seq<u8>)
    requires
        bytes.len() <= 65,
    ensures
        uts_field(bytes).len() == 65,
        forall|i: int| 0 <= i < bytes.len() ==> #[trigger] uts_field(bytes)[i] == bytes[i],
        forall|i: int| bytes.len() <= i < 65 ==> #[trigger] uts_field(bytes)[i] == 0u8,
{
}

} // verus!
