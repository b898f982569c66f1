//! Windows: the peer's process comes from a control operation on the socket.

use crate::failure::IoFailure;
use crate::pid::{resolution, signed, to_signed, Pid};
use vstd::prelude::*;

verus! {

/// The control code that asks a local socket for the process of its peer.
pub const SIO_AF_UNIX_GETPEERPID: i32 = 0x5800_0100;

/// The status by which the socket layer reports that an operation failed.
pub const SOCKET_ERROR: i32 = -1;

/// Everything that one control operation left behind.
#[derive(Clone, Copy, Debug, PartialEq, Eq, Structural)]
pub struct IoctlReply {
    /// What the operation returned.
    pub ret: i32,
    /// The peer's process, as it stood after the operation.
    pub pid: u32,
    /// The last error code of the socket layer, read right after the
    /// operation.
    pub wsa_error: i32,
}

impl IoctlReply {
    /// The answer can be trusted: the socket layer does not report failure.
    pub open spec fn accepted(self) -> bool {
        self.ret != SOCKET_ERROR
    }

    /// The number that stands for the peer: its process, read as a signed
    /// number.
    pub open spec fn identifier(self) -> i32 {
        signed(self.pid) as i32
    }
}

/// The identity of the peer, from the reply to the control operation: the
/// reported process unless the socket layer reports failure, and then a
/// failure with the socket layer's last error code.
pub fn get_pid(reply: &IoctlReply) -> (res: Result<Pid, IoFailure>)
    ensures
        res == resolution(reply.accepted(), reply.identifier(), reply.wsa_error),
        res is Err <==> reply.ret == SOCKET_ERROR,
        res matches Ok(pid) ==> pid matches Pid::Value(n) && n as int == signed(reply.pid),
        res matches Err(failure) ==> failure.code == reply.wsa_error,
{
    if reply.ret == SOCKET_ERROR {
        Err(IoFailure::from_raw_os_error(reply.wsa_error))
    } else {
        Ok(Pid::Value(to_signed(reply.pid)))
    }
}

/// An operation that the socket layer reports as failed never yields an
/// identity.
pub proof fn lemma_failed_query_is_refused(reply: IoctlReply)
    requires
        reply.ret == SOCKET_ERROR,
    ensures
        resolution(reply.accepted(), reply.identifier(), reply.wsa_error) == Err::<
            Pid,
            IoFailure,
        >(IoFailure { code: reply.wsa_error }),
{
}

/// Two accepted replies that report the same process resolve to the same
/// identity.
pub proof fn lemma_same_peer_same_identity(first: IoctlReply, second: IoctlReply)
    requires
        first.accepted(),
        second.accepted(),
        first.pid == second.pid,
    ensures
        resolution(first.accepted(), first.identifier(), first.wsa_error) == resolution(
            second.accepted(),
            second.identifier(),
            second.wsa_error,
        ),
        resolution(first.accepted(), first.identifier(), first.wsa_error) == Ok::<Pid, IoFailure>(
            Pid::Value(first.identifier()),
        ),
{
}

} // verus!
