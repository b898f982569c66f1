//! Linux: the peer's credentials come as a socket option.

use crate::failure::IoFailure;
use crate::pid::{resolution, Pid};
use vstd::prelude::*;

verus! {

/// The size in bytes of the credential record: three fields of four bytes.
pub const UCRED_LEN: u32 = 12;

/// The credential record that the kernel fills in: the peer's process, user
/// and group.
#[derive(Clone, Copy, Debug, PartialEq, Eq, Structural)]
pub struct UCred {
    pub pid: i32,
    pub uid: u32,
    pub gid: u32,
}

/// Everything that one peer-credential socket option query left behind.
#[derive(Clone, Copy, Debug, PartialEq, Eq, Structural)]
pub struct PeerCredReply {
    /// What the query returned: zero where the kernel reports success.
    pub ret: i32,
    /// The number of bytes that the kernel says it wrote into the record.
    pub len: u32,
    /// The record as it stood after the query.
    pub cred: UCred,
    /// The last error code of the operating system, read right after the
    /// query.
    pub os_error: i32,
}

impl PeerCredReply {
    /// The answer can be trusted: the kernel reports success and a record of
    /// exactly the full size. A short or oversized record is refused even
    /// where the kernel reports success.
    pub open spec fn accepted(self) -> bool {
        self.ret == 0 && self.len == UCRED_LEN
    }
}

/// The identity of the peer, from the reply to the query: the process found
/// in the record where the reply is accepted, and otherwise a failure with
/// the last error code, in which nothing of the record is used.
pub fn get_pid(reply: &PeerCredReply) -> (res: Result<Pid, IoFailure>)
    ensures
        res == resolution(reply.accepted(), reply.cred.pid, reply.os_error),
        res is Ok <==> reply.ret == 0 && reply.len == UCRED_LEN,
        res matches Ok(pid) ==> pid == Pid::Value(reply.cred.pid),
        res matches Err(failure) ==> failure.code == reply.os_error,
{
    if reply.ret == 0 && reply.len == UCRED_LEN {
        Ok(Pid::Value(reply.cred.pid))
    } else {
        Err(IoFailure::from_raw_os_error(reply.os_error))
    }
}

/// A record that is not of the full size never yields an identity, whatever
/// the kernel reported and whatever the record holds.
pub proof fn lemma_partial_record_is_refused(reply: PeerCredReply)
    requires
        reply.len != UCRED_LEN,
    ensures
        !reply.accepted(),
        resolution(reply.accepted(), reply.cred.pid, reply.os_error) == Err::<Pid, IoFailure>(
            IoFailure { code: reply.os_error },
        ),
{
}

/// A query that the kernel reports as failed never yields an identity.
pub proof fn lemma_failed_query_is_refused(reply: PeerCredReply)
    requires
        reply.ret != 0,
    ensures
        !reply.accepted(),
        resolution(reply.accepted(), reply.cred.pid, reply.os_error) == Err::<Pid, IoFailure>(
            IoFailure { code: reply.os_error },
        ),
{
}

/// Two accepted replies that report the same process resolve to the same
/// identity, which is that process.
pub proof fn lemma_same_peer_same_identity(first: PeerCredReply, second: PeerCredReply)
    requires
        first.accepted(),
        second.accepted(),
        first.cred.pid == second.cred.pid,
    ensures
        resolution(first.accepted(), first.cred.pid, first.os_error) == resolution(
            second.accepted(),
            second.cred.pid,
            second.os_error,
        ),
        resolution(first.accepted(), first.cred.pid, first.os_error) == Ok::<Pid, IoFailure>(
            Pid::Value(first.cred.pid),
        ),
{
}

} // verus!
