use netstack::{IpAddr, IpPacket, IpProtocol};

fn ipv4(protocol: u8, total_len: u16, len: usize) -> Vec<u8> {
    let mut packet = vec![0u8; len];
    packet[0] = 0x45;
    packet[2] = (total_len >> 8) as u8;
    packet[3] = total_len as u8;
    packet[9] = protocol;
    packet[12..16].copy_from_slice(&[10, 0, 0, 1]);
    packet[16..20].copy_from_slice(&[10, 0, 0, 2]);
    packet
}

fn ipv6(protocol: u8, payload_len: u16, len: usize) -> Vec<u8> {
    let mut packet = vec![0u8; len];
    packet[0] = 0x60;
    packet[4] = (payload_len >> 8) as u8;
    packet[5] = payload_len as u8;
    packet[6] = protocol;
    for i in 0..16 {
        packet[8 + i] = 100 + i as u8;
        packet[24 + i] = 200 + i as u8;
    }
    packet
}

#[test]
fn ipv4_fields() {
    let packet = IpPacket::new_checked(&ipv4(17, 20, 20)).ok().unwrap();
    assert_eq!(packet.src_addr, IpAddr::V4([10, 0, 0, 1]));
    assert_eq!(packet.dst_addr, IpAddr::V4([10, 0, 0, 2]));
    assert_eq!(packet.protocol, IpProtocol::Udp);
}

#[test]
fn ipv6_fields() {
    let packet = IpPacket::new_checked(&ipv6(6, 3, 43)).ok().unwrap();
    assert_eq!(
        packet.src_addr,
        IpAddr::V6([100, 101, 102, 103, 104, 105, 106, 107, 108, 109, 110, 111, 112, 113, 114, 115])
    );
    assert_eq!(
        packet.dst_addr,
        IpAddr::V6([200, 201, 202, 203, 204, 205, 206, 207, 208, 209, 210, 211, 212, 213, 214, 215])
    );
    assert_eq!(packet.protocol, IpProtocol::Tcp);
}

#[test]
fn protocols_by_number() {
    for number in 0..=255u8 {
        let expected = match number {
            1 => IpProtocol::Icmp,
            6 => IpProtocol::Tcp,
            17 => IpProtocol::Udp,
            58 => IpProtocol::Icmpv6,
            other => IpProtocol::Other(other),
        };
        assert_eq!(IpPacket::new_checked(&ipv4(number, 20, 20)).ok().unwrap().protocol, expected);
        assert_eq!(IpPacket::new_checked(&ipv6(number, 0, 40)).ok().unwrap().protocol, expected);
        assert_eq!(IpProtocol::from_number(number), expected);
        assert_eq!(expected.is_carried(), matches!(number, 1 | 6 | 17 | 58));
    }
}

#[test]
fn incomplete_ipv4_packets_are_refused() {
    assert!(IpPacket::new_checked(&ipv4(17, 256, 256)).is_ok());
    assert!(IpPacket::new_checked(&ipv4(17, 20, 30)).is_ok());
    assert!(IpPacket::new_checked(&ipv4(17, 20, 20)[..19]).is_err());
    assert!(IpPacket::new_checked(&ipv4(17, 21, 20)).is_err());
    assert!(IpPacket::new_checked(&ipv4(17, 19, 20)).is_err());
    let mut options = ipv4(17, 23, 30);
    options[0] = 0x46;
    assert!(IpPacket::new_checked(&options).is_err());
    options[3] = 24;
    assert!(IpPacket::new_checked(&options).is_ok());
    let mut short_header = ipv4(17, 20, 20);
    short_header[0] = 0x40;
    assert!(IpPacket::new_checked(&short_header).is_ok());
}

#[test]
fn incomplete_ipv6_packets_are_refused() {
    assert!(IpPacket::new_checked(&ipv6(17, 256, 296)).is_ok());
    assert!(IpPacket::new_checked(&ipv6(17, 0, 50)).is_ok());
    assert!(IpPacket::new_checked(&ipv6(17, 0, 40)[..39]).is_err());
    assert!(IpPacket::new_checked(&ipv6(17, 1, 40)).is_err());
}

#[test]
fn unknown_versions_are_refused() {
    for version in 0..16u8 {
        let mut packet = ipv6(17, 0, 64);
        packet[0] = version << 4 | 5;
        packet[2] = 0;
        packet[3] = 20;
        assert_eq!(IpPacket::new_checked(&packet).is_ok(), version == 4 || version == 6);
    }
}
