use std::cell::Cell;

use udpcluster::cluster::UdpSocketCluster;
use udpcluster::errors::ErrorKind;

fn no_attach(_fd: i32, _group: u16) -> i32 {
    0
}

fn close_all(fds: Vec<i32>) {
    for fd in fds {
        let _ = nix::unistd::close(fd);
    }
}

#[test]
fn start_builds_one_socket_per_node() {
    let mut c = UdpSocketCluster::new(3, false, false);
    assert!(!c.is_started());
    let fds = c.start("127.0.0.1:0", no_attach).expect("start");
    assert_eq!(fds.len(), 3);
    assert!(c.is_started());
    for fd in &fds {
        assert!(*fd >= 0);
        let ra = nix::sys::socket::getsockopt(*fd, nix::sys::socket::sockopt::ReuseAddr)
            .expect("getsockopt");
        let rp = nix::sys::socket::getsockopt(*fd, nix::sys::socket::sockopt::ReusePort)
            .expect("getsockopt");
        assert!(ra);
        assert!(rp);
        let fl = nix::fcntl::fcntl(*fd, nix::fcntl::FcntlArg::F_GETFL).expect("fcntl");
        assert!(nix::fcntl::OFlag::from_bits_truncate(fl).contains(nix::fcntl::OFlag::O_NONBLOCK));
    }
    assert!(c.stop());
    close_all(fds);
}

#[test]
fn second_start_fails_with_bad_cluster_state() {
    let mut c = UdpSocketCluster::new(1, false, false);
    let fds = c.start("127.0.0.1:0", no_attach).expect("start");
    let err = c.start("127.0.0.1:0", no_attach).unwrap_err();
    assert!(matches!(err, ErrorKind::BadClusterState));
    assert!(c.is_started());
    assert!(c.stop());
    close_all(fds);
}

#[test]
fn stop_before_start_is_a_noop() {
    let mut c = UdpSocketCluster::new(2, false, false);
    assert!(!c.stop());
    assert!(!c.is_started());
    let fds = c.start("127.0.0.1:0", no_attach).expect("start still possible");
    assert!(c.stop());
    assert!(!c.stop());
    close_all(fds);
}

#[test]
fn bad_address_aborts_start_but_state_advances() {
    let mut c = UdpSocketCluster::new(2, false, false);
    let err = c.start("not-an-address", no_attach).unwrap_err();
    assert!(matches!(err, ErrorKind::BadAddress));
    // The state machine is already `Started`: only `stop` unwinds it.
    assert!(c.is_started());
    let err2 = c.start("127.0.0.1:0", no_attach).unwrap_err();
    assert!(matches!(err2, ErrorKind::BadClusterState));
    assert!(c.stop());
}

#[test]
fn classifier_attach_gets_first_fd_and_group_size() {
    let seen: Cell<Option<(i32, u16)>> = Cell::new(None);
    let mut c = UdpSocketCluster::new(2, true, false);
    let fds = c
        .start("127.0.0.1:0", |fd, group| {
            seen.set(Some((fd, group)));
            0
        })
        .expect("start with accepting classifier");
    let (fd, group) = seen.get().expect("classifier was consulted");
    assert_eq!(fd, fds[0]);
    assert_eq!(group, 2);
    assert!(c.stop());
    close_all(fds);
}

#[test]
fn classifier_failure_is_fatal() {
    let mut c = UdpSocketCluster::new(2, true, false);
    let err = c.start("127.0.0.1:0", |_fd, _group| 7).unwrap_err();
    assert!(matches!(err, ErrorKind::CantSetOptionAttachReusePortCbpf));
    assert!(c.is_started());
    assert!(c.stop());
}

#[test]
fn classifier_skipped_when_disabled() {
    let called: Cell<bool> = Cell::new(false);
    let mut c = UdpSocketCluster::new(1, false, false);
    let fds = c
        .start("127.0.0.1:0", |_fd, _group| {
            called.set(true);
            1
        })
        .expect("start");
    assert!(!called.get());
    assert!(c.stop());
    close_all(fds);
}

#[test]
fn default_cluster_is_idle_with_a_worker_per_cpu() {
    let c = UdpSocketCluster::default();
    assert!(!c.is_started());
    assert!(c.num_node >= 1);
    assert!(c.use_cbpf);
    assert!(c.use_pinning);
}

#[test]
fn build_socket_reports_distinct_failures() {
    let err = UdpSocketCluster::build_socket("577.1.1.1:80").unwrap_err();
    assert!(matches!(err, ErrorKind::BadAddress));
    let fd = UdpSocketCluster::build_socket("127.0.0.1:0").expect("bindable");
    assert!(fd >= 0);
    let _ = nix::unistd::close(fd);
}

#[test]
fn error_kinds_describe_themselves() {
    assert!(!ErrorKind::BadAddress.describe().is_empty());
    assert!(!ErrorKind::BadClusterState.describe().is_empty());
    assert!(!ErrorKind::SocketBindFailure(13).describe().is_empty());
    assert!(!ErrorKind::SocketBuildFailure(13).describe().is_empty());
    assert!(!ErrorKind::CantSetOptionReuseAddress(1).describe().is_empty());
    assert!(!ErrorKind::CantSetOptionReusePort(1).describe().is_empty());
    assert!(!ErrorKind::CantSetOptionNonBlocking(1).describe().is_empty());
    assert!(!ErrorKind::CantSetOptionAttachReusePortCbpf.describe().is_empty());
}
