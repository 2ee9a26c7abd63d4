use etherparse::{NetSlice, PacketBuilder, SlicedPacket, TransportSlice};
use netstack::channel::Reservation;
use netstack::stack::{admission, channel_closed_err, next_step, stream_item, SendStep};
use netstack::{
    ErrorKind, Intake, IpAddr, IpFilter, IpFilters, IpPacket, IpProtocol, Poll, Stack, StackBuilder,
    StackError,
};
use std::future::poll_fn;
use std::sync::atomic::{AtomicUsize, Ordering};
use std::sync::Arc;
use std::task::Context;
use std::time::Duration;
use tokio::time::{sleep, timeout};

type SocketAddr = ([u8; 4], u16);

fn runtime() -> tokio::runtime::Runtime {
    tokio::runtime::Builder::new_current_thread().enable_time().build().unwrap()
}

fn context() -> Context<'static> {
    Context::from_waker(futures::task::noop_waker_ref())
}

fn answer<T>(poll: Poll<T>) -> std::task::Poll<T> {
    match poll {
        Poll::Ready(value) => std::task::Poll::Ready(value),
        Poll::Pending => std::task::Poll::Pending,
    }
}

async fn send(stack: &mut Stack, packet: Vec<u8>) -> Result<(), StackError> {
    poll_fn(|cx| answer(stack.poll_ready(cx))).await?;
    stack.start_send(packet)?;
    poll_fn(|cx| answer(stack.poll_flush(cx))).await
}

fn udp_ipv4_packet(local: SocketAddr, remote: SocketAddr, payload: &[u8]) -> Vec<u8> {
    let builder = PacketBuilder::ipv4(local.0, remote.0, 20).udp(local.1, remote.1);
    let mut packet = Vec::with_capacity(builder.size(payload.len()));
    builder.write(&mut packet, payload).expect("udp packet");
    packet
}

fn read_udp(packet: &[u8]) -> (Vec<u8>, SocketAddr, SocketAddr) {
    let sliced = SlicedPacket::from_ip(packet).unwrap();
    match (sliced.net, sliced.transport) {
        (Some(NetSlice::Ipv4(net)), Some(TransportSlice::Udp(udp))) => (
            udp.payload().to_vec(),
            (net.header().source(), udp.source_port()),
            (net.header().destination(), udp.destination_port()),
        ),
        _ => panic!("not a UDP packet"),
    }
}

/// A packet of the given protocol from 10.0.0.1 to 10.0.0.2 that ends in `tag`.
fn ipv4(protocol: u8, tag: u8) -> Vec<u8> {
    let mut packet = vec![0u8; 21];
    packet[0] = 0x45;
    packet[3] = 21;
    packet[9] = protocol;
    packet[12..16].copy_from_slice(&[10, 0, 0, 1]);
    packet[16..20].copy_from_slice(&[10, 0, 0, 2]);
    packet[20] = tag;
    packet
}

fn ipv6(protocol: u8, tag: u8) -> Vec<u8> {
    let mut packet = vec![0u8; 41];
    packet[0] = 0x60;
    packet[5] = 1;
    packet[6] = protocol;
    packet[8] = 0xfe;
    packet[24] = 0xfe;
    packet[40] = tag;
    packet
}

fn is_done(poll: Poll<Result<(), StackError>>) -> bool {
    matches!(poll, Poll::Ready(Ok(())))
}

fn is_pending<T>(poll: Poll<T>) -> bool {
    matches!(poll, Poll::Pending)
}

#[test]
fn stack_sink_wakes_after_protocol_channel_has_capacity() {
    runtime().block_on(async {
        let (mut stack, udp_socket, _tcp) = StackBuilder::default()
            .enable_udp(true)
            .udp_buffer_size(1)
            .build()
            .expect("build stack");
        let mut udp_read = udp_socket.expect("udp socket").packets;

        let local = ([10, 0, 0, 1], 1111);
        let remote = ([10, 0, 0, 2], 2222);
        let first = udp_ipv4_packet(local, remote, b"first");
        let second = udp_ipv4_packet(local, remote, b"second");

        send(&mut stack, first).await.expect("first packet");
        let second_send = tokio::spawn(async move { send(&mut stack, second).await });

        sleep(Duration::from_millis(50)).await;
        assert!(
            !second_send.is_finished(),
            "second send should wait while UDP channel is full"
        );

        let packet = udp_read.recv().await.expect("first udp packet");
        let (payload, observed_local, observed_remote) = read_udp(&packet);
        assert_eq!(payload, b"first");
        assert_eq!(observed_local, local);
        assert_eq!(observed_remote, remote);

        timeout(Duration::from_secs(1), second_send)
            .await
            .expect("second send should be woken after capacity returns")
            .expect("second send task")
            .expect("second packet");

        let packet = udp_read.recv().await.expect("second udp packet");
        let (payload, observed_local, observed_remote) = read_udp(&packet);
        assert_eq!(payload, b"second");
        assert_eq!(observed_local, local);
        assert_eq!(observed_remote, remote);
    });
}

#[test]
fn a_stack_can_move_to_another_task() {
    fn movable<T: Send>(_value: &T) {}
    let (stack, _udp, _tcp) = StackBuilder::default().build().ok().unwrap();
    movable(&stack);
}

#[test]
fn packets_go_to_the_endpoint_of_their_protocol() {
    let (mut stack, udp, tcp) = StackBuilder::default()
        .enable_udp(true)
        .enable_tcp(true)
        .enable_icmp(true)
        .build()
        .ok()
        .unwrap();
    let mut udp = udp.unwrap().packets;
    let mut tcp = tcp.unwrap().packets;
    let cx = &mut context();
    for packet in [ipv4(17, 1), ipv4(6, 2), ipv4(1, 3), ipv6(58, 4), ipv6(17, 5), ipv6(6, 6)] {
        assert!(is_done(stack.poll_ready(cx)));
        assert!(stack.start_send(packet).is_ok());
    }
    assert!(is_done(stack.poll_flush(cx)));
    assert_eq!(udp.try_recv().unwrap(), ipv4(17, 1));
    assert_eq!(udp.try_recv().unwrap(), ipv6(17, 5));
    assert!(udp.try_recv().is_err());
    assert_eq!(tcp.try_recv().unwrap(), ipv4(6, 2));
    assert_eq!(tcp.try_recv().unwrap(), ipv4(1, 3));
    assert_eq!(tcp.try_recv().unwrap(), ipv6(58, 4));
    assert_eq!(tcp.try_recv().unwrap(), ipv6(6, 6));
    assert!(tcp.try_recv().is_err());
}

#[test]
fn packets_without_an_endpoint_are_dropped() {
    let (mut stack, udp, tcp) =
        StackBuilder::default().enable_tcp(true).build().ok().unwrap();
    assert!(udp.is_none());
    let mut tcp = tcp.unwrap().packets;
    let cx = &mut context();
    for packet in [ipv4(17, 1), ipv4(1, 2), ipv4(6, 3), ipv4(132, 4)] {
        assert!(is_done(stack.poll_ready(cx)));
        assert!(stack.start_send(packet).is_ok());
    }
    assert!(is_done(stack.poll_flush(cx)));
    assert_eq!(tcp.try_recv().unwrap(), ipv4(6, 3));
    assert!(tcp.try_recv().is_err());
}

#[test]
fn a_waiting_packet_is_kept_and_sent_once() {
    let (mut stack, udp, _tcp) =
        StackBuilder::default().enable_udp(true).udp_buffer_size(1).build().ok().unwrap();
    let mut udp = udp.unwrap().packets;
    let cx = &mut context();
    assert!(stack.start_send(ipv4(17, 1)).is_ok());
    assert!(is_done(stack.poll_flush(cx)));
    assert!(stack.start_send(ipv4(17, 2)).is_ok());
    assert!(is_pending(stack.poll_flush(cx)));
    assert!(is_pending(stack.poll_ready(cx)));
    assert_eq!(udp.try_recv().unwrap(), ipv4(17, 1));
    assert!(is_done(stack.poll_ready(cx)));
    assert!(is_done(stack.poll_flush(cx)));
    assert_eq!(udp.try_recv().unwrap(), ipv4(17, 2));
    assert!(udp.try_recv().is_err());
}

#[test]
fn a_packet_taken_in_before_the_sink_is_ready_replaces_the_waiting_one() {
    let (mut stack, udp, _tcp) = StackBuilder::default().enable_udp(true).build().ok().unwrap();
    let mut udp = udp.unwrap().packets;
    let cx = &mut context();
    assert!(stack.start_send(ipv4(17, 1)).is_ok());
    assert!(stack.start_send(ipv4(17, 2)).is_ok());
    assert!(is_done(stack.poll_flush(cx)));
    assert_eq!(udp.try_recv().unwrap(), ipv4(17, 2));
    assert!(udp.try_recv().is_err());
}

#[test]
fn a_closed_channel_is_an_error_for_good() {
    let (mut stack, udp, tcp) =
        StackBuilder::default().enable_udp(true).enable_tcp(true).build().ok().unwrap();
    drop(udp);
    let mut tcp = tcp.unwrap().packets;
    let cx = &mut context();
    for _attempt in 0..2 {
        assert!(stack.start_send(ipv4(17, 1)).is_ok());
        match stack.poll_flush(cx) {
            Poll::Ready(Err(error)) => {
                assert_eq!(error.kind, ErrorKind::BrokenPipe);
                assert_eq!(error.message, "channel is closed");
            }
            _ => panic!("the channel is closed"),
        }
        assert!(is_done(stack.poll_ready(cx)));
    }
    assert!(stack.start_send(ipv4(6, 2)).is_ok());
    assert!(is_done(stack.poll_flush(cx)));
    assert_eq!(tcp.try_recv().unwrap(), ipv4(6, 2));
}

#[test]
fn refused_packets_leave_the_waiting_one_alone() {
    let (mut stack, udp, _tcp) = StackBuilder::default().enable_udp(true).build().ok().unwrap();
    let mut udp = udp.unwrap().packets;
    let cx = &mut context();
    assert!(stack.start_send(ipv4(17, 1)).is_ok());
    assert!(stack.start_send(Vec::new()).is_ok());
    assert!(stack.start_send(ipv4(132, 2)).is_ok());
    let mut broadcast = ipv4(17, 3);
    broadcast[16..20].copy_from_slice(&[255, 255, 255, 255]);
    assert!(stack.start_send(broadcast).is_ok());
    let error = stack.start_send(vec![0x45, 0, 0]).err().unwrap();
    assert_eq!(error.kind, ErrorKind::InvalidInput);
    assert_eq!(error.message, "invalid IP packet: wire::Error");
    assert_eq!(stack.start_send(vec![0; 40]).err().unwrap().kind, ErrorKind::InvalidInput);
    assert!(is_done(stack.poll_flush(cx)));
    assert_eq!(udp.try_recv().unwrap(), ipv4(17, 1));
    assert!(udp.try_recv().is_err());
}

/// A task that counts how often it is woken.
struct Task(AtomicUsize);

impl futures::task::ArcWake for Task {
    fn wake_by_ref(task: &Arc<Self>) {
        task.0.fetch_add(1, Ordering::SeqCst);
    }
}

fn task() -> Arc<Task> {
    Arc::new(Task(AtomicUsize::new(0)))
}

fn wakes(task: &Arc<Task>) -> usize {
    task.0.load(Ordering::SeqCst)
}

#[test]
fn the_task_that_polled_the_sink_last_is_woken() {
    let (mut stack, udp, _tcp) =
        StackBuilder::default().enable_udp(true).udp_buffer_size(1).build().ok().unwrap();
    let mut udp = udp.unwrap().packets;
    let (first, second) = (task(), task());
    let (first_waker, second_waker) =
        (futures::task::waker(first.clone()), futures::task::waker(second.clone()));
    assert!(stack.start_send(ipv4(17, 1)).is_ok());
    assert!(is_done(stack.poll_flush(&mut Context::from_waker(&first_waker))));
    assert!(stack.start_send(ipv4(17, 2)).is_ok());
    assert!(is_pending(stack.poll_flush(&mut Context::from_waker(&first_waker))));
    assert!(is_pending(stack.poll_ready(&mut Context::from_waker(&second_waker))));
    assert_eq!((wakes(&first), wakes(&second)), (0, 0));
    assert_eq!(udp.try_recv().unwrap(), ipv4(17, 1));
    assert_eq!((wakes(&first), wakes(&second)), (0, 1));
    assert!(is_done(stack.poll_flush(&mut Context::from_waker(&second_waker))));
    assert_eq!(udp.try_recv().unwrap(), ipv4(17, 2));
}

#[test]
fn the_task_that_polled_the_stream_last_is_woken() {
    let (mut stack, udp, _tcp) = StackBuilder::default().enable_udp(true).build().ok().unwrap();
    let replies = udp.unwrap().replies;
    let (first, second) = (task(), task());
    let (first_waker, second_waker) =
        (futures::task::waker(first.clone()), futures::task::waker(second.clone()));
    assert!(is_pending(stack.poll_next(&mut Context::from_waker(&first_waker))));
    assert!(is_pending(stack.poll_next(&mut Context::from_waker(&second_waker))));
    assert_eq!((wakes(&first), wakes(&second)), (0, 0));
    replies.try_send(vec![1]).unwrap();
    assert_eq!((wakes(&first), wakes(&second)), (0, 1));
}

#[test]
fn the_endpoints_packets_come_out_of_the_stack() {
    let (mut stack, udp, tcp) =
        StackBuilder::default().enable_udp(true).enable_tcp(true).build().ok().unwrap();
    let udp = udp.unwrap();
    let tcp = tcp.unwrap();
    let cx = &mut context();
    assert!(is_pending(stack.poll_next(cx)));
    udp.replies.try_send(vec![1]).unwrap();
    tcp.replies.try_send(vec![2]).unwrap();
    assert!(matches!(stack.poll_next(cx), Poll::Ready(Some(Ok(packet))) if packet == vec![1]));
    assert!(matches!(stack.poll_next(cx), Poll::Ready(Some(Ok(packet))) if packet == vec![2]));
    assert!(is_pending(stack.poll_next(cx)));
    drop(udp);
    assert!(is_pending(stack.poll_next(cx)));
    drop(tcp);
    assert!(matches!(stack.poll_next(cx), Poll::Ready(None)));
}

#[test]
fn closing_stops_the_endpoints() {
    let (mut stack, udp, _tcp) = StackBuilder::default().enable_udp(true).build().ok().unwrap();
    let udp = udp.unwrap();
    let cx = &mut context();
    udp.replies.try_send(vec![1]).unwrap();
    assert!(is_done(stack.poll_close(cx)));
    assert!(udp.replies.try_send(vec![2]).is_err());
    assert!(matches!(stack.poll_next(cx), Poll::Ready(Some(Ok(packet))) if packet == vec![1]));
    assert!(matches!(stack.poll_next(cx), Poll::Ready(None)));
}

#[test]
fn the_end_of_the_stream_is_final() {
    let (mut stack, udp, _tcp) = StackBuilder::default().enable_udp(true).build().ok().unwrap();
    let cx = &mut context();
    udp.as_ref().unwrap().replies.try_send(vec![1]).unwrap();
    drop(udp);
    assert!(matches!(stack.poll_next(cx), Poll::Ready(Some(Ok(packet))) if packet == vec![1]));
    for _attempt in 0..3 {
        assert!(matches!(stack.poll_next(cx), Poll::Ready(None)));
    }
    assert!(is_done(stack.poll_close(cx)));
    assert!(matches!(stack.poll_next(cx), Poll::Ready(None)));
}

#[test]
fn the_stream_wakes_after_an_endpoint_has_sent() {
    runtime().block_on(async {
        let (mut stack, udp, _tcp) =
            StackBuilder::default().enable_udp(true).build().ok().unwrap();
        let replies = udp.unwrap().replies;
        let next = tokio::spawn(async move { poll_fn(|cx| answer(stack.poll_next(cx))).await });
        sleep(Duration::from_millis(50)).await;
        assert!(!next.is_finished());
        replies.try_send(vec![1]).unwrap();
        let item = timeout(Duration::from_secs(1), next).await.unwrap().unwrap();
        assert_eq!(item.unwrap().ok().unwrap(), vec![1]);
    });
}

#[test]
fn a_stack_without_endpoints_gives_nothing_out() {
    let (mut stack, udp, tcp) = StackBuilder::default().build().ok().unwrap();
    assert!(udp.is_none());
    assert!(tcp.is_none());
    assert!(matches!(stack.poll_next(&mut context()), Poll::Ready(None)));
}

#[test]
fn icmp_requires_tcp() {
    for udp in [false, true] {
        let error = StackBuilder::default()
            .enable_udp(udp)
            .enable_icmp(true)
            .build()
            .err()
            .unwrap();
        assert_eq!(error.kind, ErrorKind::InvalidInput);
        assert_eq!(error.message, "ICMP requires TCP");
    }
    assert!(StackBuilder::default().enable_icmp(true).enable_tcp(true).build().is_ok());
}

#[test]
fn channels_have_the_sizes_that_were_set() {
    let (_stack, udp, tcp) = StackBuilder::default()
        .enable_udp(true)
        .enable_tcp(true)
        .stack_buffer_size(3)
        .udp_buffer_size(4)
        .tcp_buffer_size(5)
        .mtu(1380)
        .build()
        .ok()
        .unwrap();
    let udp = udp.unwrap();
    let tcp = tcp.unwrap();
    assert_eq!(udp.replies.max_capacity(), 3);
    assert_eq!(tcp.replies.max_capacity(), 3);
    assert!(udp.replies.same_channel(&tcp.replies));
    assert_eq!(udp.packets.max_capacity(), 4);
    assert_eq!(tcp.packets.max_capacity(), 5);
    assert_eq!(tcp.mtu, 1380);
}

#[test]
fn sizes_of_channels_that_can_be_made() {
    let largest = usize::MAX / 8;
    assert!(StackBuilder::default().sizes_valid());
    assert!(StackBuilder::default().stack_buffer_size(1).sizes_valid());
    assert!(StackBuilder::default().stack_buffer_size(largest).sizes_valid());
    assert!(!StackBuilder::default().stack_buffer_size(largest + 1).sizes_valid());
    assert!(!StackBuilder::default().stack_buffer_size(0).sizes_valid());
    assert!(StackBuilder::default().udp_buffer_size(0).sizes_valid());
    assert!(!StackBuilder::default().udp_buffer_size(0).enable_udp(true).sizes_valid());
    assert!(StackBuilder::default().tcp_buffer_size(0).sizes_valid());
    assert!(!StackBuilder::default().tcp_buffer_size(0).enable_tcp(true).sizes_valid());
}

#[test]
fn default_settings() {
    let (_stack, udp, tcp) =
        StackBuilder::default().enable_udp(true).enable_tcp(true).build().ok().unwrap();
    let udp = udp.unwrap();
    let tcp = tcp.unwrap();
    assert_eq!(udp.replies.max_capacity(), 1024);
    assert_eq!(udp.packets.max_capacity(), 512);
    assert_eq!(tcp.packets.max_capacity(), 512);
    assert_eq!(tcp.mtu, 1504);
}

#[test]
fn filters_of_the_builder() {
    let to_host = |octet: u8| {
        let mut packet = ipv4(17, octet);
        packet[19] = octet;
        packet
    };
    let only = |octet: u8| {
        IpFilter::new(move |_src: &IpAddr, dst: &IpAddr| *dst == IpAddr::V4([10, 0, 0, octet]))
    };
    let passing = |builder: StackBuilder| -> Vec<u8> {
        let (mut stack, udp, _tcp) = builder.enable_udp(true).build().ok().unwrap();
        let mut udp = udp.unwrap().packets;
        let cx = &mut context();
        let mut passed = Vec::new();
        for octet in [0, 2, 3] {
            assert!(stack.start_send(to_host(octet)).is_ok());
            assert!(is_done(stack.poll_flush(cx)));
            if udp.try_recv().is_ok() {
                passed.push(octet);
            }
        }
        passed
    };
    assert_eq!(passing(StackBuilder::default()), vec![0, 2, 3]);
    assert_eq!(passing(StackBuilder::default().add_ip_filter(only(2))), vec![2]);
    assert_eq!(
        passing(StackBuilder::default().add_ip_filter_fn(|_src: &IpAddr, dst: &IpAddr| {
            *dst != IpAddr::V4([10, 0, 0, 2])
        })),
        vec![0, 3]
    );
    assert_eq!(
        passing(StackBuilder::default().add_ip_filter(only(2)).add_ip_filter(only(3))),
        Vec::<u8>::new()
    );
    assert_eq!(
        passing(
            StackBuilder::default()
                .add_ip_filter(only(2))
                .set_ip_filters(IpFilters::new(vec![only(3)]))
        ),
        vec![3]
    );
}

#[test]
fn what_to_do_with_the_waiting_packet() {
    match next_step(vec![1], IpProtocol::Udp, Reservation::Granted) {
        SendStep::Deliver(packet) => assert_eq!(packet, vec![1]),
        _ => panic!("there is a place"),
    }
    match next_step(vec![1], IpProtocol::Udp, Reservation::Waiting) {
        SendStep::Keep(packet, protocol) => {
            assert_eq!(packet, vec![1]);
            assert_eq!(protocol, IpProtocol::Udp);
        }
        _ => panic!("there is no place yet"),
    }
    match next_step(vec![1], IpProtocol::Udp, Reservation::Closed) {
        SendStep::Fail(error) => assert_eq!(error.message, "channel is closed"),
        _ => panic!("there is no channel"),
    }
}

#[test]
fn which_packets_are_admitted() {
    let packet = |protocol: IpProtocol| IpPacket {
        src_addr: IpAddr::V4([10, 0, 0, 1]),
        dst_addr: IpAddr::V4([10, 0, 0, 2]),
        protocol,
    };
    for protocol in [IpProtocol::Tcp, IpProtocol::Udp, IpProtocol::Icmp, IpProtocol::Icmpv6] {
        assert_eq!(admission(&packet(protocol), true), Intake::Waiting(protocol));
    }
    let ignored = IpProtocol::Other(2);
    assert_eq!(admission(&packet(ignored), true), Intake::Ignored(ignored));
    let filtered = Intake::Filtered(IpAddr::V4([10, 0, 0, 1]), IpAddr::V4([10, 0, 0, 2]));
    assert_eq!(admission(&packet(IpProtocol::Udp), false), filtered);
    assert_eq!(admission(&packet(ignored), false), filtered);
}

#[test]
fn what_became_of_an_offered_packet() {
    let (mut stack, udp, _tcp) = StackBuilder::default().enable_udp(true).build().ok().unwrap();
    let mut udp = udp.unwrap().packets;
    assert_eq!(stack.take_in(Vec::new()).ok().unwrap(), Intake::Empty);
    let mut multicast = ipv4(17, 1);
    multicast[16..20].copy_from_slice(&[224, 0, 0, 1]);
    assert_eq!(
        stack.take_in(multicast).ok().unwrap(),
        Intake::Filtered(IpAddr::V4([10, 0, 0, 1]), IpAddr::V4([224, 0, 0, 1]))
    );
    assert_eq!(
        stack.take_in(ipv4(132, 2)).ok().unwrap(),
        Intake::Ignored(IpProtocol::Other(132))
    );
    assert_eq!(stack.take_in(vec![0x45]).err().unwrap().kind, ErrorKind::InvalidInput);
    assert_eq!(stack.take_in(ipv4(17, 3)).ok().unwrap(), Intake::Waiting(IpProtocol::Udp));
    assert!(is_done(stack.poll_flush(&mut context())));
    assert_eq!(udp.try_recv().unwrap(), ipv4(17, 3));
    assert!(udp.try_recv().is_err());
}

#[test]
fn tcp_and_icmp_keep_one_order_over_waits() {
    let (mut stack, _udp, tcp) = StackBuilder::default()
        .enable_tcp(true)
        .enable_icmp(true)
        .tcp_buffer_size(1)
        .build()
        .ok()
        .unwrap();
    let mut tcp = tcp.unwrap().packets;
    let cx = &mut context();
    let sent = vec![ipv4(6, 1), ipv4(1, 2), ipv6(58, 3), ipv4(6, 4), ipv6(6, 5), ipv4(1, 6)];
    let mut received = Vec::new();
    let mut waits = 0;
    for packet in sent.clone() {
        assert!(is_done(stack.poll_ready(cx)));
        assert!(stack.start_send(packet).is_ok());
        while is_pending(stack.poll_flush(cx)) {
            waits += 1;
            received.push(tcp.try_recv().unwrap());
        }
    }
    received.push(tcp.try_recv().unwrap());
    assert_eq!(received, sent);
    assert_eq!(waits, 5);
}

#[test]
fn what_the_stream_presents() {
    assert!(matches!(
        stream_item(Poll::Ready(Some(vec![1]))),
        Poll::Ready(Some(Ok(packet))) if packet == vec![1]
    ));
    assert!(matches!(stream_item(Poll::Ready(None)), Poll::Ready(None)));
    assert!(is_pending(stream_item(Poll::Pending)));
}

#[test]
fn errors_on_closed_channels() {
    let error = channel_closed_err("gone");
    assert_eq!(error.kind, ErrorKind::BrokenPipe);
    assert_eq!(error.message, "gone");
}
