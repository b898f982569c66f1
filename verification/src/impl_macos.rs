//! macOS and its relatives: the peer's effective user and group come from a
//! call of their own, which knows of no process.

use crate::failure::IoFailure;
use crate::pid::{resolution, signed, to_signed, Pid};
use vstd::prelude::*;

verus! {

/// Everything that one effective-identity query left behind.
#[derive(Clone, Copy, Debug, PartialEq, Eq, Structural)]
pub struct PeerEidReply {
    /// What the query returned: zero where the system reports success.
    pub ret: i32,
    /// The peer's effective user, as it stood after the query.
    pub uid: u32,
    /// The peer's effective group, as it stood after the query.
    pub gid: u32,
    /// The last error code of the operating system, read right after the
    /// query.
    pub os_error: i32,
}

impl PeerEidReply {
    /// The answer can be trusted: the system reports success.
    pub open spec fn accepted(self) -> bool {
        self.ret == 0
    }

    /// The number that stands for the peer: its effective user, read as a
    /// signed number. It names a user, not a process.
    pub open spec fn identifier(self) -> i32 {
        signed(self.uid) as i32
    }
}

/// The identity of the peer, from the reply to the query: the effective user
/// where the reply is accepted, and otherwise a failure with the last error
/// code. The number is a user's, since this query reports no process.
pub fn get_pid(reply: &PeerEidReply) -> (res: Result<Pid, IoFailure>)
    ensures
        res == resolution(reply.accepted(), reply.identifier(), reply.os_error),
        res is Ok <==> reply.ret == 0,
        res matches Ok(pid) ==> pid matches Pid::Value(n) && n as int == signed(reply.uid),
        res matches Err(failure) ==> failure.code == reply.os_error,
{
    if reply.ret == 0 {
        Ok(Pid::Value(to_signed(reply.uid)))
    } else {
        Err(IoFailure::from_raw_os_error(reply.os_error))
    }
}

/// A query that the system reports as failed never yields an identity.
pub proof fn lemma_failed_query_is_refused(reply: PeerEidReply)
    requires
        reply.ret != 0,
    ensures
        resolution(reply.accepted(), reply.identifier(), reply.os_error) == Err::<Pid, IoFailure>(
            IoFailure { code: reply.os_error },
        ),
{
}

/// Two accepted replies that report the same user resolve to the same
/// identity, whatever group they report.
pub proof fn lemma_same_peer_same_identity(first: PeerEidReply, second: PeerEidReply)
    requires
        first.accepted(),
        second.accepted(),
        first.uid == second.uid,
    ensures
        resolution(first.accepted(), first.identifier(), first.os_error) == resolution(
            second.accepted(),
            second.identifier(),
            second.os_error,
        ),
        resolution(first.accepted(), first.identifier(), first.os_error) == Ok::<Pid, IoFailure>(
            Pid::Value(first.identifier()),
        ),
{
}

} // verus!
