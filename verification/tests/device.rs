use netstack::device::{pair_tokens, pending_ingress, Checksum, Medium, VirtualTxToken};
use netstack::VirtualDevice;

fn runtime() -> tokio::runtime::Runtime {
    tokio::runtime::Builder::new_current_thread().enable_time().build().unwrap()
}

#[test]
fn receive_keeps_ingress_packet_when_egress_is_full() {
    runtime().block_on(async {
        let (stack_tx, mut stack_rx) = tokio::sync::mpsc::channel(1);
        stack_tx.send(vec![9, 9, 9]).await.unwrap();

        let (mut device, iface_ingress_tx) = VirtualDevice::new(stack_tx, 1504);
        iface_ingress_tx.send(vec![1, 2, 3]).unwrap();

        assert!(device.has_pending_ingress());
        assert!(device.receive().is_none());
        assert!(device.has_pending_ingress());

        assert_eq!(stack_rx.recv().await.unwrap(), vec![9, 9, 9]);

        let (rx_token, tx_token) = device.receive().expect("pending packet");
        let mut rx_buf = Vec::new();
        rx_token.consume(|buffer: &[u8]| rx_buf.extend_from_slice(buffer));
        assert_eq!(rx_buf, vec![1, 2, 3]);

        tx_token.consume(2, |buffer: &mut [u8]| buffer.copy_from_slice(&[4, 5]));
        assert_eq!(stack_rx.recv().await.unwrap(), vec![4, 5]);
        assert!(!device.has_pending_ingress());
    });
}

#[test]
fn capabilities_report_configured_mtu() {
    let (stack_tx, _stack_rx) = tokio::sync::mpsc::channel(1);
    let (device, _iface_ingress_tx) = VirtualDevice::new(stack_tx, 1380);
    assert_eq!(device.capabilities().max_transmission_unit, 1380);
}

#[test]
fn capabilities_keep_the_other_defaults() {
    let (stack_tx, _stack_rx) = tokio::sync::mpsc::channel(1);
    let (device, _iface_ingress_tx) = VirtualDevice::new(stack_tx, 9000);
    let capabilities = device.capabilities();
    let both = Checksum { rx: true, tx: true };
    assert_eq!(capabilities.medium, Medium::Ip);
    assert_eq!(capabilities.max_transmission_unit, 9000);
    assert_eq!(capabilities.max_burst_size, None);
    assert_eq!(capabilities.checksum.ipv4, both);
    assert_eq!(capabilities.checksum.udp, both);
    assert_eq!(capabilities.checksum.tcp, both);
    assert_eq!(capabilities.checksum.icmpv4, both);
    assert_eq!(capabilities.checksum.icmpv6, both);
}

#[test]
fn ingress_packets_keep_their_order_over_refusals() {
    let (stack_tx, mut stack_rx) = tokio::sync::mpsc::channel(1);
    let (mut device, iface_ingress_tx) = VirtualDevice::new(stack_tx, 1504);
    for packet in 1..=5u8 {
        iface_ingress_tx.send(vec![packet]).unwrap();
    }

    let mut handed_out = Vec::new();
    let mut refusals = 0;
    while device.has_pending_ingress() {
        match device.receive() {
            Some((rx_token, tx_token)) => {
                handed_out.push(rx_token.consume(|buffer: &[u8]| buffer.to_vec()));
                tx_token.consume(1, |buffer: &mut [u8]| buffer[0] = 7);
            }
            None => {
                refusals += 1;
                assert_eq!(stack_rx.try_recv().unwrap(), vec![7]);
            }
        }
    }
    assert_eq!(handed_out, vec![vec![1], vec![2], vec![3], vec![4], vec![5]]);
    assert_eq!(refusals, 4);
}

#[test]
fn a_token_that_is_dropped_gives_its_place_back() {
    let (stack_tx, _stack_rx) = tokio::sync::mpsc::channel(2);
    let (mut device, _iface_ingress_tx) = VirtualDevice::new(stack_tx, 1504);
    assert_eq!(device.egress_capacity(), 2);
    assert!(device.transmit().is_some());
    assert_eq!(device.egress_capacity(), 2);
}

#[test]
fn transmit_fills_the_egress_channel() {
    let (stack_tx, mut stack_rx) = tokio::sync::mpsc::channel(2);
    let (mut device, _iface_ingress_tx) = VirtualDevice::new(stack_tx, 1504);
    let (answer, _sent) =
        device.transmit().unwrap().consume(3, |buffer: &mut [u8]| {
            assert_eq!(buffer.to_vec(), vec![0, 0, 0]);
            buffer[1] = 8;
            "answer"
        });
    assert_eq!(answer, "answer");
    assert_eq!(device.egress_capacity(), 1);
    device.transmit().unwrap().consume(0, |_buffer: &mut [u8]| ());
    assert_eq!(device.egress_capacity(), 0);
    assert!(device.transmit().is_none());
    assert_eq!(stack_rx.try_recv().unwrap(), vec![0, 8, 0]);
    assert_eq!(stack_rx.try_recv().unwrap(), Vec::<u8>::new());
    assert_eq!(device.egress_capacity(), 2);
}

#[test]
fn a_pending_packet_is_received() {
    let (stack_tx, _stack_rx) = tokio::sync::mpsc::channel(1);
    let (mut device, iface_ingress_tx) = VirtualDevice::new(stack_tx, 1504);
    iface_ingress_tx.send(vec![1]).unwrap();
    drop(iface_ingress_tx);
    assert!(device.has_pending_ingress());
    let (rx_token, tx_token) = device.receive().unwrap();
    assert_eq!(rx_token.consume(|buffer: &[u8]| buffer.to_vec()), vec![1]);
    drop(tx_token);
    assert!(!device.has_pending_ingress());
}

#[test]
fn nothing_is_received_from_an_empty_channel() {
    let (stack_tx, _stack_rx) = tokio::sync::mpsc::channel(1);
    let (mut device, iface_ingress_tx) = VirtualDevice::new(stack_tx, 1504);
    assert!(!device.has_pending_ingress());
    assert!(device.receive().is_none());
    drop(iface_ingress_tx);
    assert!(device.receive().is_none());
    assert!(!device.has_pending_ingress());
}

#[test]
fn a_closed_egress_channel_keeps_the_packet() {
    let (stack_tx, stack_rx) = tokio::sync::mpsc::channel(1);
    let (mut device, iface_ingress_tx) = VirtualDevice::new(stack_tx, 1504);
    iface_ingress_tx.send(vec![1]).unwrap();
    drop(stack_rx);
    assert!(device.receive().is_none());
    assert!(device.has_pending_ingress());
    assert!(device.transmit().is_none());
}

#[test]
fn packets_and_permits_are_paired() {
    let (stack_tx, _stack_rx) = tokio::sync::mpsc::channel(1);
    let (rx_token, _tx_token) = pair_tokens(vec![1, 2], stack_tx.try_reserve().ok()).ok().unwrap();
    assert_eq!(rx_token.consume(|buffer: &[u8]| buffer.len()), 2);
    assert_eq!(pair_tokens(vec![1, 2], None).err(), Some(vec![1, 2]));
    assert!(VirtualTxToken::granted(None).is_none());
}

#[test]
fn ingress_is_pending_in_either_place() {
    assert!(pending_ingress(true, true));
    assert!(pending_ingress(true, false));
    assert!(pending_ingress(false, false));
    assert!(!pending_ingress(false, true));
}
