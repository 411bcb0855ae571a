//! The decisions the background pumps take, stated once and verified.
//!
//! A pump loops over blocking transfers between the resource and the pipe:
//! it keeps going while bytes move, and stops on a 0-byte transfer (the other
//! side is done) or on an error. The write pump then flushes the resource:
//! the flush is attempted even after a failed drain, but a drain error
//! outranks whatever the flush returned; only on a clean drain is the flush
//! result authoritative. The transfers and the flush themselves are blocking
//! I/O and run with the executor; these functions own the choices made on
//! their results.

use vstd::prelude::*;

verus! {

/// Whether a pump keeps looping after one transfer: only while bytes moved.
pub fn pump_continue(last: &Result<usize, std::io::Error>) -> (c: bool)
    ensures
        c == (last matches Ok(n) && n > 0),
{
    match last {
        Ok(n) => *n > 0,
        Err(_) => false,
    }
}

/// The result a read pump ends with: end of stream is a success, an error is
/// handed on as it is.
pub fn read_pump_outcome(last: Result<usize, std::io::Error>) -> (r: Result<(), std::io::Error>)
    ensures
        last is Ok ==> r is Ok,
        last matches Err(e) ==> r == Result::<(), std::io::Error>::Err(e),
{
    match last {
        Ok(_) => Ok(()),
        Err(e) => Err(e),
    }
}

/// The result a write pump ends with, given how the drain ended and what the
/// closing flush returned: a drain error outranks the flush result; on a
/// clean drain the flush result is authoritative.
pub fn write_pump_outcome(
    drain: Result<(), std::io::Error>,
    flush: Result<(), std::io::Error>,
) -> (r: Result<(), std::io::Error>)
    ensures
        drain is Err ==> r == drain,
        drain is Ok ==> r == flush,
{
    match drain {
        Err(e) => Err(e),
        Ok(()) => flush,
    }
}

} // verus!
