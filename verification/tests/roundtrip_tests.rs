use nix::sys::socket::{
    getsockname, recvfrom, sendto, socket, AddressFamily, InetAddr, MsgFlags, SockAddr, SockFlag,
    SockType,
};
use nix::sys::time::TimeValLike;

use udpcluster::cluster::UdpSocketCluster;
use udpcluster::counter::Counter;
use udpcluster::worker::{
    echo_payload, on_recv_event, on_send_event, EchoBatcher, RecvAction, RecvEvent, SendAction,
    SendEvent,
};

fn v4_addr(port: u16) -> SockAddr {
    SockAddr::new_inet(InetAddr::V4(libc::sockaddr_in {
        sin_family: libc::AF_INET as libc::sa_family_t,
        sin_port: port.to_be(),
        sin_addr: libc::in_addr {
            s_addr: u32::from_ne_bytes([127, 0, 0, 1]),
        },
        sin_zero: [0; 8],
    }))
}

fn bound_port(fd: i32) -> u16 {
    match getsockname(fd).expect("getsockname") {
        SockAddr::Inet(InetAddr::V4(sin)) => u16::from_be(sin.sin_port),
        SockAddr::Inet(InetAddr::V6(sin6)) => u16::from_be(sin6.sin6_port),
        _ => panic!("not an inet address"),
    }
}

fn free_local_port() -> u16 {
    let fd = socket(AddressFamily::Inet, SockType::Datagram, SockFlag::empty(), None)
        .expect("probe socket");
    nix::sys::socket::bind(fd, &v4_addr(0)).expect("probe bind");
    let p = bound_port(fd);
    nix::unistd::close(fd).expect("probe close");
    p
}

/// Drive the cluster's serving step by hand, single-threaded: poll the
/// worker sockets until one holds the datagram, then echo it back the
/// way the worker loop does, through the library's decisions.
fn pump_one(fds: &[i32], buf: &mut [u8], batcher: &mut EchoBatcher, counter: &mut Counter) {
    loop {
        for fd in fds {
            match recvfrom(*fd, buf) {
                Ok((len, Some(peer))) => {
                    assert_eq!(
                        on_recv_event(false, &RecvEvent::Packet { len }),
                        RecvAction::EchoBack
                    );
                    let payload = echo_payload(buf, len);
                    loop {
                        match sendto(*fd, &payload, &peer, MsgFlags::empty()) {
                            Ok(_) => {
                                assert_eq!(
                                    on_send_event(&SendEvent::Sent),
                                    SendAction::CountAndContinue
                                );
                                if let Some(delta) = batcher.record_success() {
                                    let _ = counter.on_delta(delta, 0);
                                }
                                break;
                            }
                            Err(nix::errno::Errno::EAGAIN) => {
                                assert_eq!(
                                    on_send_event(&SendEvent::SendWouldBlock),
                                    SendAction::RetryNow
                                );
                            }
                            Err(e) => panic!("send error: {:?}", e),
                        }
                    }
                    return;
                }
                Ok((_, None)) => panic!("datagram without a sender"),
                Err(nix::errno::Errno::EAGAIN) => {
                    assert_eq!(
                        on_recv_event(false, &RecvEvent::RecvWouldBlock),
                        RecvAction::KeepPolling
                    );
                }
                Err(e) => panic!("recv error: {:?}", e),
            }
        }
    }
}

/// Whether this environment can actually deliver a datagram over
/// loopback; some sandboxes allow binding but not sending.
fn loopback_usable() -> bool {
    let fd = match socket(AddressFamily::Inet, SockType::Datagram, SockFlag::empty(), None) {
        Ok(fd) => fd,
        Err(_) => return false,
    };
    if nix::sys::socket::bind(fd, &v4_addr(0)).is_err() {
        let _ = nix::unistd::close(fd);
        return false;
    }
    let port = bound_port(fd);
    let usable = sendto(fd, &[0u8], &v4_addr(port), MsgFlags::empty()).is_ok();
    let _ = nix::unistd::close(fd);
    usable
}

fn client_socket() -> i32 {
    let fd = socket(AddressFamily::Inet, SockType::Datagram, SockFlag::empty(), None)
        .expect("client socket");
    nix::sys::socket::setsockopt(
        fd,
        nix::sys::socket::sockopt::ReceiveTimeout,
        &nix::sys::time::TimeVal::seconds(5),
    )
    .expect("client timeout");
    fd
}

#[test]
fn echo_is_byte_identical_across_sizes() {
    if !loopback_usable() {
        println!("loopback delivery unavailable here; nothing to exercise");
        return;
    }
    let port = free_local_port();
    let mut c = UdpSocketCluster::new(1, false, false);
    let fds = c
        .start(&format!("127.0.0.1:{}", port), |_fd, _g| 0)
        .expect("start");
    let client = client_socket();
    let server = v4_addr(port);
    let mut batcher = EchoBatcher::new();
    let mut counter = Counter::new();
    let mut buf = vec![0u8; 65535];
    let mut back = vec![0u8; 65535];
    for &size in &[1usize, 2, 32, 512, 1400, 8192] {
        let payload: Vec<u8> = (0..size).map(|i| ((i * 7 + size) % 256) as u8).collect();
        sendto(client, &payload, &server, MsgFlags::empty()).expect("client send");
        pump_one(&fds, &mut buf, &mut batcher, &mut counter);
        let (len, _) = recvfrom(client, &mut back).expect("client recv");
        assert_eq!(len, size);
        assert_eq!(&back[..len], &payload[..]);
    }
    assert!(c.stop());
    for fd in fds {
        let _ = nix::unistd::close(fd);
    }
    let _ = nix::unistd::close(client);
}

#[test]
fn two_node_scenario_round_trips_25000_packets() {
    if !loopback_usable() {
        println!("loopback delivery unavailable here; nothing to exercise");
        return;
    }
    let port = free_local_port();
    let mut c = UdpSocketCluster::new(2, false, false);
    let fds = c
        .start(&format!("127.0.0.1:{}", port), |_fd, _g| 0)
        .expect("start");
    assert_eq!(fds.len(), 2);
    let client = client_socket();
    let server = v4_addr(port);
    let mut batcher = EchoBatcher::new();
    let mut counter = Counter::new();
    let mut buf = vec![0u8; 65535];
    let mut back = [0u8; 16];
    for i in 0..25000u32 {
        let payload = [(i % 251) as u8];
        sendto(client, &payload, &server, MsgFlags::empty()).expect("client send");
        pump_one(&fds, &mut buf, &mut batcher, &mut counter);
        let (len, _) = recvfrom(client, &mut back).expect("client recv");
        assert_eq!(len, 1);
        assert_eq!(back[0], payload[0]);
    }
    // Two full batches reached the aggregator; the rest is still
    // pending below the batching threshold.
    assert_eq!(counter.total, 20000);
    assert_eq!(batcher.pending, 5000);
    assert!(c.stop());
    for fd in fds {
        let _ = nix::unistd::close(fd);
    }
    let _ = nix::unistd::close(client);
}
