use vstd::prelude::*;
use vstd::string::StringSliceAdditionalSpecFns;
use crate::addr::{parse_socket_addr, spec_parse_addr, HostIp, SocketAddress};
use crate::affinity::CpuAffinitySet;
use crate::errors::ErrorKind;

verus! {

/// Relies on nix::sys::socket::socket: creates one UDP datagram socket
/// of the given family and returns its file descriptor, which the
/// system promises to be non-negative on success; on failure the raw
/// OS error code.
#[verifier::external_body]
fn sys_socket_udp(v6: bool) -> (r: Result<i32, i32>)
    ensures
        r matches Ok(fd) ==> fd >= 0,
{
    let fam = if v6 {
        nix::sys::socket::AddressFamily::Inet6
    } else {
        nix::sys::socket::AddressFamily::Inet
    };
    nix::sys::socket::socket(
        fam,
        nix::sys::socket::SockType::Datagram,
        nix::sys::socket::SockFlag::empty(),
        Some(nix::sys::socket::SockProtocol::Udp),
    ).map_err(|e| e as i32)
}

/// Relies on nix::sys::socket::setsockopt with sockopt::ReuseAddr:
/// sets SO_REUSEADDR on the socket.
#[verifier::external_body]
fn sys_set_reuse_addr(fd: i32) -> (r: Result<(), i32>) {
    nix::sys::socket::setsockopt(fd, nix::sys::socket::sockopt::ReuseAddr, &true).map_err(
        |e| e as i32,
    )
}

/// Relies on nix::sys::socket::setsockopt with sockopt::ReusePort:
/// sets SO_REUSEPORT, which every socket of the group must carry
/// before binding for the kernel to share the port.
#[verifier::external_body]
fn sys_set_reuse_port(fd: i32) -> (r: Result<(), i32>) {
    nix::sys::socket::setsockopt(fd, nix::sys::socket::sockopt::ReusePort, &true).map_err(
        |e| e as i32,
    )
}

/// Relies on nix::fcntl::fcntl with F_SETFL(O_NONBLOCK): puts the
/// socket into non-blocking mode.
#[verifier::external_body]
fn sys_set_nonblocking(fd: i32) -> (r: Result<(), i32>) {
    nix::fcntl::fcntl(fd, nix::fcntl::FcntlArg::F_SETFL(nix::fcntl::OFlag::O_NONBLOCK)).map(
        |_| (),
    ).map_err(|e| e as i32)
}

/// Relies on nix::sys::socket::bind: binds the socket to the IPv4
/// address `a.b.c.d` and the port.
#[verifier::external_body]
fn sys_bind_v4(fd: i32, a: u8, b: u8, c: u8, d: u8, port: u16) -> (r: Result<(), i32>) {
    let sin = libc::sockaddr_in {
        sin_family: libc::AF_INET as libc::sa_family_t,
        sin_port: port.to_be(),
        sin_addr: libc::in_addr { s_addr: u32::from_ne_bytes([a, b, c, d]) },
        sin_zero: [0; 8],
    };
    nix::sys::socket::bind(
        fd,
        &nix::sys::socket::SockAddr::new_inet(nix::sys::socket::InetAddr::V4(sin)),
    ).map_err(|e| e as i32)
}

/// Relies on nix::sys::socket::bind: binds the socket to the IPv6
/// address given as its 16 network-order bytes, the scope id and the
/// port.
#[verifier::external_body]
fn sys_bind_v6(fd: i32, ip: &Vec<u8>, scope: u32, port: u16) -> (r: Result<(), i32>)
    requires
        ip@.len() == 16,
{
    let mut bytes = [0u8; 16];
    bytes.copy_from_slice(ip.as_slice());
    let sin6 = libc::sockaddr_in6 {
        sin6_family: libc::AF_INET6 as libc::sa_family_t,
        sin6_port: port.to_be(),
        sin6_flowinfo: 0,
        sin6_addr: libc::in6_addr { s6_addr: bytes },
        sin6_scope_id: scope,
    };
    nix::sys::socket::bind(
        fd,
        &nix::sys::socket::SockAddr::new_inet(nix::sys::socket::InetAddr::V6(sin6)),
    ).map_err(|e| e as i32)
}

/// Relies on nix::unistd::close: releases the descriptor back to the
/// kernel.
#[verifier::external_body]
fn sys_close(fd: i32) -> (r: Result<(), i32>) {
    nix::unistd::close(fd).map_err(|e| e as i32)
}

/// Relies on num_cpus::get: the number of logical CPUs available to
/// this process, never below 1.
#[verifier::external_body]
fn sys_cpu_count() -> (r: usize)
    ensures
        r >= 1,
{
    num_cpus::get()
}

/// The cluster's lifecycle: `Idle` until `start`, then `Started`,
/// then `Closed` after `stop`. `Closed` is terminal.
#[derive(Debug, Clone, Copy, PartialEq, Eq, Structural)]
pub enum ClusterState {
    Idle,
    Started,
    Closed,
}

/// The orchestrator of the reuse-port socket group.
///
/// It owns the lifecycle state machine and the per-worker CPU template.
/// `start` builds the sockets and decides the classifier attachment;
/// the surrounding runtime spawns one serving thread per returned
/// descriptor and one aggregator thread, and runs them until `stop`
/// tells it to signal and join them all.
#[derive(Debug, Clone, PartialEq)]
pub struct UdpSocketCluster {
    pub cpu_set: CpuAffinitySet,
    pub num_node: usize,
    pub state: ClusterState,
    pub use_cbpf: bool,
    pub use_pinning: bool,
}

/// `start` is admitted only here.
pub open spec fn start_allowed(c: UdpSocketCluster) -> bool {
    c.state is Idle
}

/// The state machine after `start` ran from `Idle` — `Started` whether
/// or not every later step succeeded; only `stop` unwinds what was
/// already created.
pub open spec fn after_start(c: UdpSocketCluster) -> UdpSocketCluster {
    UdpSocketCluster { state: ClusterState::Started, ..c }
}

/// The state machine after `stop`: only a `Started` cluster moves, to
/// the terminal `Closed`; any other state is left untouched.
pub open spec fn after_stop(c: UdpSocketCluster) -> UdpSocketCluster {
    if c.state is Started {
        UdpSocketCluster { state: ClusterState::Closed, ..c }
    } else {
        c
    }
}

impl UdpSocketCluster {
    /// A cluster of `num_node` workers, not yet started.
    pub fn new(num_node: usize, use_cbpf: bool, use_pinning: bool) -> (r: Self)
        ensures
            r.num_node == num_node,
            r.use_cbpf == use_cbpf,
            r.use_pinning == use_pinning,
            r.state is Idle,
            forall|i: int| !r.cpu_set.has(i),
    {
        UdpSocketCluster {
            cpu_set: CpuAffinitySet::new(),
            num_node,
            state: ClusterState::Idle,
            use_cbpf,
            use_pinning,
        }
    }

    /// Whether the cluster is currently serving.
    pub fn is_started(&self) -> (r: bool)
        ensures
            r == (self.state is Started),
    {
        match self.state {
            ClusterState::Started => true,
            _ => false,
        }
    }

    /// Build one socket of the group: parse the bind target, create a
    /// datagram socket of the matching family, set reuse-address,
    /// reuse-port and non-blocking — each failure reported as its own
    /// kind, carrying the OS error — and bind it. On success the
    /// descriptor of a ready, independently pollable socket.
    ///
    /// `BadAddress` comes exactly when the text does not parse; every
    /// other failure wraps a system call's error.
    pub fn build_socket(addr: &str) -> (r: Result<i32, ErrorKind>)
        ensures
            match r {
                Ok(fd) => fd >= 0 && spec_parse_addr(addr.spec_bytes()) is Some,
                Err(e) => match e {
                    ErrorKind::BadAddress => spec_parse_addr(addr.spec_bytes()) is None,
                    ErrorKind::SocketBuildFailure(_) => spec_parse_addr(addr.spec_bytes()) is Some,
                    ErrorKind::CantSetOptionReuseAddress(_) => spec_parse_addr(
                        addr.spec_bytes(),
                    ) is Some,
                    ErrorKind::CantSetOptionReusePort(_) => spec_parse_addr(
                        addr.spec_bytes(),
                    ) is Some,
                    ErrorKind::CantSetOptionNonBlocking(_) => spec_parse_addr(
                        addr.spec_bytes(),
                    ) is Some,
                    ErrorKind::SocketBindFailure(_) => spec_parse_addr(addr.spec_bytes()) is Some,
                    _ => false,
                },
            },
    {
        let sa: SocketAddress = match parse_socket_addr(addr) {
            Some(sa) => sa,
            None => {
                return Err(ErrorKind::BadAddress);
            },
        };
        let v6: bool = sa.is_v6();
        let fd: i32 = match sys_socket_udp(v6) {
            Ok(fd) => fd,
            Err(e) => {
                return Err(ErrorKind::SocketBuildFailure(e));
            },
        };
        match sys_set_reuse_addr(fd) {
            Ok(_) => (),
            Err(e) => {
                let _ = sys_close(fd);
                return Err(ErrorKind::CantSetOptionReuseAddress(e));
            },
        }
        match sys_set_reuse_port(fd) {
            Ok(_) => (),
            Err(e) => {
                let _ = sys_close(fd);
                return Err(ErrorKind::CantSetOptionReusePort(e));
            },
        }
        match sys_set_nonblocking(fd) {
            Ok(_) => (),
            Err(e) => {
                let _ = sys_close(fd);
                return Err(ErrorKind::CantSetOptionNonBlocking(e));
            },
        }
        let bound: Result<(), i32> = match &sa.ip {
            HostIp::V4(a, b, c, d) => sys_bind_v4(fd, *a, *b, *c, *d, sa.port),
            HostIp::V6(bytes, scope) => sys_bind_v6(fd, bytes, *scope, sa.port),
        };
        match bound {
            Ok(_) => Ok(fd),
            Err(e) => {
                let _ = sys_close(fd);
                Err(ErrorKind::SocketBindFailure(e))
            },
        }
    }

    /// The one decision on the classifier capability's answer: the
    /// kernel interface reports success as status 0, and any other
    /// status is the fatal classifier-installation failure.
    pub fn classifier_status_to_result(ret: i32) -> (r: Result<(), ErrorKind>)
        ensures
            (ret == 0) <==> (r is Ok),
            r matches Err(e) ==> e is CantSetOptionAttachReusePortCbpf,
    {
        if ret == 0 {
            Ok(())
        } else {
            Err(ErrorKind::CantSetOptionAttachReusePortCbpf)
        }
    }

    /// Start the cluster: valid only from `Idle`, and the state moves
    /// to `Started` at once — even when a later step fails, as only
    /// `stop` releases what was already created. Builds `num_node`
    /// sockets all bound to `addr` through the reuse-port group, then,
    /// when the kernel classifier is enabled, lets `attach` install it
    /// on the first socket's descriptor with the group size; a
    /// non-zero status is the fatal
    /// `CantSetOptionAttachReusePortCbpf`. On success the descriptors,
    /// in node order, for the runtime to hand one to each worker.
    pub fn start<F: Fn(i32, u16) -> i32>(&mut self, addr: &str, attach: F) -> (r: Result<
        Vec<i32>,
        ErrorKind,
    >)
        requires
            forall|x: (i32, u16)| #[trigger] attach.requires(x),
            old(self).use_cbpf ==> old(self).num_node <= 65535,
        ensures
            !start_allowed(*old(self)) ==> *final(self) == *old(self) && r matches Err(
                ErrorKind::BadClusterState,
            ),
            start_allowed(*old(self)) ==> {
                &&& *final(self) == after_start(*old(self))
                &&& match r {
                    Ok(fds) => {
                        &&& fds@.len() == old(self).num_node
                        &&& (forall|i: int| 0 <= i < fds@.len() ==> fds@[i] >= 0)
                        &&& (old(self).num_node > 0 ==> spec_parse_addr(addr.spec_bytes()) is Some)
                    },
                    Err(e) => {
                        &&& !(e is BadClusterState)
                        &&& (e is BadAddress ==> spec_parse_addr(addr.spec_bytes()) is None)
                        &&& (e is CantSetOptionAttachReusePortCbpf ==> old(self).use_cbpf)
                    },
                }
                &&& (old(self).num_node > 0 && spec_parse_addr(addr.spec_bytes()) is None
                    ==> r matches Err(ErrorKind::BadAddress))
                &&& (old(self).num_node == 0 && !old(self).use_cbpf ==> (r matches Ok(fds)
                    && fds@.len() == 0))
                &&& (r matches Err(ErrorKind::CantSetOptionAttachReusePortCbpf) ==> exists|
                    fd: i32,
                    ret: i32,
                |
                    ret != 0 && #[trigger] attach.ensures((fd, old(self).num_node as u16), ret))
                &&& (old(self).use_cbpf && r is Ok ==> exists|fd: i32|
                    #[trigger] attach.ensures((fd, old(self).num_node as u16), 0i32))
            },
    {
        match self.state {
            ClusterState::Idle => (),
            _ => {
                return Err(ErrorKind::BadClusterState);
            },
        }
        self.state = ClusterState::Started;

        let num_node: usize = self.num_node;
        let mut fds: Vec<i32> = Vec::new();
        let mut first_fd: i32 = 0;
        let mut n: usize = 0;
        while n < num_node
            invariant
                start_allowed(*old(self)),
                *self == after_start(*old(self)),
                num_node == old(self).num_node,
                0 <= n <= num_node,
                fds@.len() == n,
                forall|i: int| 0 <= i < fds@.len() ==> fds@[i] >= 0,
                n > 0 ==> spec_parse_addr(addr.spec_bytes()) is Some,
            decreases num_node - n,
        {
            let fd: i32 = match Self::build_socket(addr) {
                Ok(fd) => fd,
                Err(e) => {
                    return Err(e);
                },
            };
            if n == 0 {
                first_fd = fd;
            }
            fds.push(fd);
            n = n + 1;
        }

        if self.use_cbpf {
            let ret: i32 = attach(first_fd, self.num_node as u16);
            match Self::classifier_status_to_result(ret) {
                Ok(_) => (),
                Err(e) => {
                    return Err(e);
                },
            }
        }
        Ok(fds)
    }

    /// Stop the cluster: a no-op unless `Started`. The result tells
    /// the runtime whether a shutdown is owed — signal every worker,
    /// join them in node order, then signal and join the aggregator —
    /// exactly once per cluster lifetime.
    pub fn stop(&mut self) -> (r: bool)
        ensures
            *final(self) == after_stop(*old(self)),
            r == (old(self).state is Started),
    {
        match self.state {
            ClusterState::Started => {
                self.state = ClusterState::Closed;
                true
            },
            _ => false,
        }
    }
}

impl Default for UdpSocketCluster {
    /// One worker per logical CPU, classifier and pinning on, and an
    /// empty CPU template — each worker adds only its own bit.
    fn default() -> (r: Self)
        ensures
            r.num_node >= 1,
            r.use_cbpf,
            r.use_pinning,
            r.state is Idle,
            forall|i: int| !r.cpu_set.has(i),
    {
        UdpSocketCluster::new(sys_cpu_count(), true, true)
    }
}

/// Law: `start` cannot run twice without an intervening `stop` — the
/// state a successful `start` leaves never admits another.
pub proof fn lemma_no_double_start(c: UdpSocketCluster)
    ensures
        !start_allowed(after_start(c)),
{
}

/// Law: `stop` before any `start` changes nothing.
pub proof fn lemma_stop_before_start_noop(c: UdpSocketCluster)
    requires
        c.state is Idle,
    ensures
        after_stop(c) == c,
{
}

/// Law: a second `stop` is a no-op — `Closed` is terminal.
pub proof fn lemma_stop_idempotent(c: UdpSocketCluster)
    ensures
        after_stop(after_stop(c)) == after_stop(c),
{
}

/// Law: a closed cluster neither starts nor stops again — there is no
/// partial restart.
pub proof fn lemma_closed_is_terminal(c: UdpSocketCluster)
    requires
        c.state is Closed,
    ensures
        !start_allowed(c),
        after_stop(c) == c,
{
}

} // verus!
