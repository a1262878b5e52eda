use vstd::prelude::*;

verus! {

/// The failure kinds that cluster operations report.
///
/// Each variant that stems from a failed system call carries the raw OS
/// error code (`errno`) of the underlying I/O failure, so callers can
/// distinguish transient conditions from permanent ones.
#[derive(Debug, Clone, Copy, PartialEq, Eq, Structural)]
pub enum ErrorKind {
    /// Binding the socket to the requested address failed.
    SocketBindFailure(i32),
    /// Creating the datagram socket failed.
    SocketBuildFailure(i32),
    /// The textual bind target could not be parsed as a socket address.
    BadAddress,
    /// Setting the reuse-address option failed.
    CantSetOptionReuseAddress(i32),
    /// Setting the reuse-port option failed.
    CantSetOptionReusePort(i32),
    /// Putting the socket into non-blocking mode failed.
    CantSetOptionNonBlocking(i32),
    /// Installing the kernel flow classifier on the reuse-port group failed.
    CantSetOptionAttachReusePortCbpf,
    /// A lifecycle operation was invoked from the wrong state.
    BadClusterState,
}

impl ErrorKind {
    /// A short human-readable description of the failure kind.
    pub fn describe(&self) -> (r: &'static str)
        ensures
            r@.len() > 0,
    {
        let r = match self {
            ErrorKind::SocketBindFailure(_) => "failed to bind socket",
            ErrorKind::SocketBuildFailure(_) => "failed to build socket",
            ErrorKind::BadAddress => "socket address has bad format",
            ErrorKind::CantSetOptionReuseAddress(_) => "failed to set SO_REUSEADDR socket option",
            ErrorKind::CantSetOptionReusePort(_) => "failed to set SO_REUSEPORT socket option",
            ErrorKind::CantSetOptionNonBlocking(_) => "failed to set 'nonblocking' socket option",
            ErrorKind::CantSetOptionAttachReusePortCbpf => "failed to set 'SO_ATTACH_REUSEPORT_CBPF' socket option",
            ErrorKind::BadClusterState => "method is called on bad state",
        };
        proof {
            reveal_strlit("failed to bind socket");
            reveal_strlit("failed to build socket");
            reveal_strlit("socket address has bad format");
            reveal_strlit("failed to set SO_REUSEADDR socket option");
            reveal_strlit("failed to set SO_REUSEPORT socket option");
            reveal_strlit("failed to set 'nonblocking' socket option");
            reveal_strlit("failed to set 'SO_ATTACH_REUSEPORT_CBPF' socket option");
            reveal_strlit("method is called on bad state");
        }
        r
    }
}

} // verus!
