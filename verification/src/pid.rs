//! The identity of a peer process, as callers see it.

use crate::decimal::{decimal, to_decimal};
use crate::failure::IoFailure;
use vstd::prelude::*;
use vstd::string::StringExecFns;

verus! {

/// Who is at the other end of a connection.
///
/// `Nobody` and `Any` are for callers: the first says that there is no
/// identity, the second that any peer will do. A query never answers with
/// either. `Value` holds the number that the operating system reported; no
/// number is refused, zero and negative ones included.
#[derive(Clone, Copy, Debug, PartialEq, Eq, Structural)]
pub enum Pid {
    Nobody,
    Any,
    Value(i32),
}

impl Pid {
    /// The text of an identity: `none`, `any`, or the decimal text of the
    /// number.
    pub open spec fn text(self) -> Seq<char> {
        match self {
            Pid::Nobody => "none"@,
            Pid::Any => "any"@,
            Pid::Value(n) => decimal(n as int),
        }
    }

    /// Renders the identity for people to read.
    pub fn to_string(&self) -> (rendered: String)
        ensures
            rendered@ == self.text(),
    {
        match *self {
            Pid::Nobody => String::from_str("none"),
            Pid::Any => String::from_str("any"),
            Pid::Value(n) => to_decimal(n),
        }
    }
}

/// What a query yields: the reported number as a concrete identity where the
/// operating system's answer was accepted, and otherwise a failure with the
/// native error code.
pub open spec fn resolution(accepted: bool, id: i32, code: i32) -> Result<Pid, IoFailure> {
    if accepted {
        Ok(Pid::Value(id))
    } else {
        Err(IoFailure { code })
    }
}

/// The signed number with the same 32 bits as `x`.
pub open spec fn signed(x: u32) -> int {
    if x < 0x8000_0000 {
        x as int
    } else {
        x - 0x1_0000_0000
    }
}

/// Reads the 32 bits of `x` as a signed number: the platforms that report an
/// unsigned identifier have it stored this way.
pub fn to_signed(x: u32) -> (n: i32)
    ensures
        n as int == signed(x),
{
    if x < 0x8000_0000 {
        x as i32
    } else {
        let low: u32 = x - 0x8000_0000;
        (low as i32) + i32::MIN
    }
}

/// An accepted answer always resolves to a concrete identity, never to
/// `Nobody` or `Any`, and to the very number that was reported; a refused one
/// never resolves to an identity, and keeps the native error code.
pub proof fn lemma_resolution_is_concrete_or_fails(accepted: bool, id: i32, code: i32)
    ensures
        accepted ==> resolution(accepted, id, code) == Ok::<Pid, IoFailure>(Pid::Value(id)),
        !accepted ==> resolution(accepted, id, code) == Err::<Pid, IoFailure>(IoFailure { code }),
        resolution(accepted, id, code) matches Ok(pid) ==> pid is Value,
{
}

/// Asking twice gives the same identity: two accepted answers that report the
/// same number resolve alike, whatever error code was lying about.
pub proof fn lemma_resolution_is_repeatable(id: i32, first_code: i32, second_code: i32)
    ensures
        resolution(true, id, first_code) == resolution(true, id, second_code),
        resolution(true, id, first_code) == Ok::<Pid, IoFailure>(Pid::Value(id)),
{
}

} // verus!
