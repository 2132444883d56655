use vstd::prelude::*;

use crate::abi::Params;
use crate::setup::Event;

verus! {

/// The address a failed mapping call returns in place of a region.
pub const MAP_FAILED_ADDR: usize = usize::MAX;

/// The descriptor that a create-ring call returned, or `None` where the
/// return value is no descriptor (a failure, or out of the descriptor
/// range).
pub fn setup_fd(ret: i64) -> (r: Option<i32>)
    ensures
        r == (if 0 <= ret <= i32::MAX { Some(ret as i32) } else { None::<i32> }),
{
    if 0 <= ret && ret <= i32::MAX as i64 {
        Some(ret as i32)
    } else {
        None
    }
}

/// The count an enter or register call reported, or `None` where it
/// reported a failure.
pub fn call_count(ret: i64) -> (r: Option<u32>)
    ensures
        r == (if 0 <= ret <= u32::MAX { Some(ret as u32) } else { None::<u32> }),
{
    if 0 <= ret && ret <= u32::MAX as i64 {
        Some(ret as u32)
    } else {
        None
    }
}

/// What a create-ring call that returned `ret`, filled `params`, and left
/// `errno` as the error number means to setup.
pub fn created_event(ret: i64, params: Params, errno: i32) -> (e: Event)
    ensures
        e == (if 0 <= ret <= i32::MAX {
            Event::Created { fd: ret as i32, params }
        } else {
            Event::Failed { errno }
        }),
{
    match setup_fd(ret) {
        Some(fd) => Event::Created { fd, params },
        None => Event::Failed { errno },
    }
}

/// What a mapping call that returned `addr`, leaving `errno` as the error
/// number, means to setup.
pub fn mapped_event(addr: usize, errno: i32) -> (e: Event)
    ensures
        e == (if addr == MAP_FAILED_ADDR { Event::Failed { errno } } else { Event::Mapped { addr } }),
{
    if addr == MAP_FAILED_ADDR {
        Event::Failed { errno }
    } else {
        Event::Mapped { addr }
    }
}

} // verus!
