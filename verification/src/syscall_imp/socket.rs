//! Sockets.
use vstd::prelude::*;
use crate::errno::{SysError, SysResult};

verus! {

/// `setsockopt`: options are accepted and ignored.
pub fn sys_setsockopt(
    _socket: usize,
    _level: usize,
    _optname: usize,
    _optval: usize,
    _optlen: usize,
) -> (r: SysResult)
    ensures
        r == Ok::<isize, SysError>(0),
{
    Ok(0)
}

} // verus!
