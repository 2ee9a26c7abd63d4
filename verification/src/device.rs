//! The virtual network device between the stack's channels and a polled network interface.
//!
//! Packets come in on an unbounded channel and go out on a bounded one. A packet is handed to
//! the interface only together with the permit to send one packet out, so that the interface
//! can always answer.

use crate::channel::{
    capacity, channel_limit, is_empty, open_unbounded, permit_channel, permit_send,
    sender_channel, sender_found_with, sender_refused, try_recv, try_reserve,
    unbounded_receiver_channel, unbounded_receiver_found_empty, unbounded_receiver_stocked,
    unbounded_receiver_taken, unbounded_sender_channel, Requester, Sent,
};
use crate::packet::AnyIpPktFrame;
use tokio::sync::mpsc::{Permit, Sender, UnboundedReceiver, UnboundedSender};
use vstd::prelude::*;

verus! {

/// The kind of frames that a device carries.
#[derive(Clone, Copy, Debug, PartialEq, Eq)]
pub enum Medium {
    /// Bare IP packets.
    Ip,
}

/// Which checksums of one protocol the interface works out itself.
#[derive(Clone, Copy, Debug, PartialEq, Eq)]
pub struct Checksum {
    /// Whether it verifies those of the packets that come in.
    pub rx: bool,
    /// Whether it fills in those of the packets that go out.
    pub tx: bool,
}

/// Which checksums the interface works out itself, protocol by protocol.
#[derive(Clone, Copy, Debug, PartialEq, Eq)]
pub struct ChecksumCapabilities {
    pub ipv4: Checksum,
    pub udp: Checksum,
    pub tcp: Checksum,
    pub icmpv4: Checksum,
    pub icmpv6: Checksum,
}

/// What a device can do.
#[derive(Clone, Copy, Debug, PartialEq, Eq)]
pub struct DeviceCapabilities {
    pub medium: Medium,
    /// The size of the largest packet that the device carries.
    pub max_transmission_unit: usize,
    /// The largest number of packets that it carries at once, where there is a limit.
    pub max_burst_size: Option<usize>,
    pub checksum: ChecksumCapabilities,
}

/// The capabilities of a device for IP packets of up to `mtu` octets that sets no limit on
/// bursts and leaves every checksum to the interface.
pub open spec fn ip_capabilities(mtu: usize) -> DeviceCapabilities {
    let both = Checksum { rx: true, tx: true };
    DeviceCapabilities {
        medium: Medium::Ip,
        max_transmission_unit: mtu,
        max_burst_size: None,
        checksum: ChecksumCapabilities {
            ipv4: both,
            udp: both,
            tcp: both,
            icmpv4: both,
            icmpv6: both,
        },
    }
}

/// `DeviceCapabilities::default` of smoltcp, built for IP frames only: a transmission unit of
/// zero, no limit on bursts, and every checksum verified and filled in by the interface.
#[verifier::external_body]
fn default_capabilities() -> (capabilities: DeviceCapabilities)
    ensures
        capabilities == ip_capabilities(0),
{
    let found = smoltcp::phy::DeviceCapabilities::default();
    let medium = match found.medium { smoltcp::phy::Medium::Ip => Medium::Ip };
    let sums = found.checksum;
    let checksum = ChecksumCapabilities {
        ipv4: Checksum { rx: sums.ipv4.rx(), tx: sums.ipv4.tx() },
        udp: Checksum { rx: sums.udp.rx(), tx: sums.udp.tx() },
        tcp: Checksum { rx: sums.tcp.rx(), tx: sums.tcp.tx() },
        icmpv4: Checksum { rx: sums.icmpv4.rx(), tx: sums.icmpv4.tx() },
        icmpv6: Checksum { rx: sums.icmpv6.rx(), tx: sums.icmpv6.tx() },
    };
    let max_transmission_unit = found.max_transmission_unit;
    let max_burst_size = found.max_burst_size;
    DeviceCapabilities { medium, max_transmission_unit, max_burst_size, checksum }
}

/// A packet that the interface may read once.
pub struct VirtualRxToken {
    buffer: Vec<u8>,
}

impl View for VirtualRxToken {
    type V = Seq<u8>;

    closed spec fn view(&self) -> Seq<u8> {
        self.buffer@
    }
}

impl VirtualRxToken {
    /// Hands the packet to `f` and returns its answer.
    pub fn consume<R, F>(self, f: F) -> (result: R) where F: FnOnce(&[u8]) -> R
        requires
            forall|packet: &[u8]| packet@ == self@ ==> #[trigger] call_requires(f, (packet,)),
        ensures
            exists|packet: &[u8]|
                packet@ == self@ && #[trigger] call_ensures(f, (packet,), result),
    {
        f(self.buffer.as_slice())
    }
}

/// The permit to send one packet out.
pub struct VirtualTxToken<'a> {
    permit: Permit<'a, Vec<u8>>,
}

/// As many octets of zero.
pub open spec fn zeros(len: nat) -> Seq<u8> {
    Seq::new(len, |i: int| 0u8)
}

/// `AsMut::as_mut` of `Vec`: its elements as a slice, to be changed in place. A slice keeps its
/// length.
#[verifier::external_body]
fn as_octets(buffer: &mut Vec<u8>) -> (octets: &mut [u8])
    ensures
        octets@ == old(buffer)@,
        final(octets)@.len() == octets@.len(),
        final(buffer)@ == final(octets)@,
{
    buffer.as_mut()
}

impl<'a> VirtualTxToken<'a> {
    /// The channel that the packet will go out on.
    pub closed spec fn channel(self) -> int {
        permit_channel(self.permit)
    }

    /// The token for a permit, where there is one.
    pub fn granted(permit: Option<Permit<'a, Vec<u8>>>) -> (token: Option<VirtualTxToken<'a>>)
        ensures
            token is Some <==> permit is Some,
            token matches Some(token) ==> token.channel() == permit_channel(permit->0),
    {
        match permit {
            Some(permit) => Some(VirtualTxToken { permit }),
            None => None,
        }
    }

    /// Lets `f` fill a packet of `len` octets, all zero at first, and sends it out. Returns the
    /// answer of `f` and the proof that the packet went out as `f` left it.
    pub fn consume<R, F>(self, len: usize, f: F) -> (done: (R, Sent)) where
        F: FnOnce(&mut [u8]) -> R,

        requires
            forall|packet: &mut [u8]|
                packet@ == zeros(len as nat) ==> #[trigger] call_requires(f, (packet,)),
        ensures
            exists|packet: &mut [u8], answer: R| #[trigger]
                call_ensures(f, (packet,), answer) && packet@ == zeros(len as nat) && answer
                    == done.0 && final(packet)@ == done.1.packet(),
            done.1.packet().len() == len,
            done.1.channel() == self.channel(),
    {
        let mut buffer: Vec<u8> = vec![0u8;len];
        assert(buffer@ =~= zeros(len as nat));
        let result = f(as_octets(&mut buffer));
        let sent = permit_send(self.permit, buffer);
        (result, sent)
    }
}

/// What is known of a device.
pub struct DeviceView {
    /// The channel that packets come in on.
    pub ingress: int,
    /// The packets that the device has taken from that channel so far.
    pub taken: Seq<Seq<u8>>,
    /// Whether the next packet is on that channel, to stay there until the device takes it.
    pub stocked: bool,
    /// The packet that it holds back until it can be handed out.
    pub held: Option<Seq<u8>>,
    /// The channel that packets go out on.
    pub egress: int,
    /// The size of the largest packet.
    pub mtu: usize,
}

impl DeviceView {
    /// A packet that is held back is the one that was taken last.
    pub open spec fn wf(self) -> bool {
        self.held matches Some(packet) ==> self.taken.len() > 0 && self.taken.last() == packet
    }

    /// The packets that the device has handed out so far.
    pub open spec fn handed_out(self) -> Seq<Seq<u8>> {
        if self.held is Some {
            self.taken.drop_last()
        } else {
            self.taken
        }
    }

    /// The device after it has taken a packet from its channel, and holds it back if `hold`.
    pub open spec fn taking(self, packet: Seq<u8>, hold: bool) -> DeviceView {
        DeviceView {
            taken: self.taken.push(packet),
            held: if hold {
                Some(packet)
            } else {
                None
            },
            ..self
        }
    }

    /// The device with another state of its incoming channel.
    pub open spec fn restocked(self, stocked: bool) -> DeviceView {
        DeviceView { stocked, ..self }
    }

    /// Whether there is a packet for the next call of [`VirtualDevice::receive`]: one that is
    /// held back, or one that is on the channel.
    pub open spec fn supplied(self) -> bool {
        self.held is Some || self.stocked
    }

    /// Whether one call of [`VirtualDevice::receive`] may lead from this state to `post` and
    /// hand out `packet`. A packet that is held back goes first; while one is, none is taken.
    /// Otherwise a packet that is on the channel is taken, and handed out or held back. Where
    /// one is taken, or none was there, the channel may have come to hold another.
    pub open spec fn receives(self, post: DeviceView, packet: Option<Seq<u8>>) -> bool {
        match (self.held, packet) {
            (Some(held), Some(packet)) => packet == held && post == (DeviceView {
                held: None,
                ..self
            }),
            (Some(_), None) => post == self,
            (None, Some(packet)) => post == self.taking(packet, false).restocked(post.stocked),
            (None, None) => {
                ||| !self.stocked && post == self.restocked(post.stocked)
                ||| exists|taken: Seq<u8>|
                    post == (#[trigger] self.taking(taken, true)).restocked(post.stocked)
            },
        }
    }
}

/// A network device made of two channels.
pub struct VirtualDevice {
    in_buf: UnboundedReceiver<Vec<u8>>,
    pending_in_buf: Option<Vec<u8>>,
    out_buf: Requester,
    mtu: usize,
}

impl View for VirtualDevice {
    type V = DeviceView;

    closed spec fn view(&self) -> DeviceView {
        DeviceView {
            ingress: unbounded_receiver_channel(self.in_buf),
            taken: unbounded_receiver_taken(self.in_buf),
            stocked: unbounded_receiver_stocked(self.in_buf),
            held: match self.pending_in_buf {
                Some(packet) => Some(packet@),
                None => None,
            },
            egress: sender_channel(self.out_buf.sender()),
            mtu: self.mtu,
        }
    }
}

impl VirtualDevice {
    /// The end of the channel that packets come in on.
    pub closed spec fn ingress_end(self) -> UnboundedReceiver<Vec<u8>> {
        self.in_buf
    }

    /// The end of the channel that packets go out on.
    pub closed spec fn egress_end(self) -> Sender<AnyIpPktFrame> {
        self.out_buf.sender()
    }

    /// How often the device has asked for a place on the channel that packets go out on.
    pub closed spec fn requests(self) -> nat {
        self.out_buf.requests()
    }

    /// Whether, at some moment while the device was as it is, its incoming channel held no
    /// packet.
    pub closed spec fn found_empty(self) -> bool {
        unbounded_receiver_found_empty(self.in_buf)
    }

    /// Whether, at some moment while the device was as it is, its outgoing channel had this many
    /// places left.
    pub closed spec fn found_with(self, places: usize) -> bool {
        sender_found_with(self.out_buf.sender(), self.out_buf.requests(), places)
    }

    /// Whether, at some moment while the device was as it is, its outgoing channel was full or
    /// closed.
    pub closed spec fn refused(self) -> bool {
        sender_refused(self.out_buf.sender(), self.out_buf.requests())
    }

    /// A device that sends its packets out by `iface_egress_tx`, and the sender of the channel
    /// that its packets come in on.
    pub fn new(iface_egress_tx: Sender<AnyIpPktFrame>, mtu: usize) -> (made: (
        Self,
        UnboundedSender<Vec<u8>>,
    ))
        ensures
            made.0@ == (DeviceView {
                ingress: unbounded_sender_channel(made.1),
                taken: Seq::empty(),
                stocked: made.0@.stocked,
                held: None,
                egress: sender_channel(iface_egress_tx),
                mtu,
            }),
            made.0.egress_end() == iface_egress_tx,
            made.0.requests() == 0,
            unbounded_receiver_channel(made.0.ingress_end()) == unbounded_sender_channel(made.1),
            unbounded_receiver_taken(made.0.ingress_end()) == Seq::<Seq<u8>>::empty(),
    {
        let (iface_ingress_tx, iface_ingress_rx) = open_unbounded();
        (
            VirtualDevice {
                in_buf: iface_ingress_rx,
                pending_in_buf: None,
                out_buf: Requester::new(iface_egress_tx),
                mtu,
            },
            iface_ingress_tx,
        )
    }

    /// Whether there is a packet to hand out: one that is held back, or one on the channel at
    /// the moment of the call. Where there is, the next call of [`VirtualDevice::receive`] gets
    /// hold of it. Where there is none, none is held back and the channel was found empty.
    pub fn has_pending_ingress(&self) -> (pending: bool)
        ensures
            pending ==> self@.supplied(),
            !pending ==> self@.held is None && self.found_empty(),
            pending ==> self@.held is Some || unbounded_receiver_stocked(self.ingress_end()),
            !pending ==> unbounded_receiver_found_empty(self.ingress_end()),
    {
        pending_ingress(self.pending_in_buf.is_some(), is_empty(&self.in_buf))
    }

    /// How many packets the outgoing channel has room for at the moment of the call.
    pub fn egress_capacity(&self) -> (places: usize)
        ensures
            places <= channel_limit(self@.egress),
            self.found_with(places),
            sender_found_with(self.egress_end(), self.requests(), places),
    {
        capacity(&self.out_buf)
    }

    /// The next packet, and the permit to send one out, where there are both. A packet that has
    /// been taken from the channel without such a permit is held back for a later call. Where
    /// nothing is handed out, the outgoing channel was found full or closed, or there was no
    /// packet: none was held back and the incoming channel was found empty.
    ///
    /// A packet that there is costs one request for a place, and no more, so a refusal is that of
    /// the call's only request, made while the call itself held no place. Where there is no
    /// packet, no place is asked for.
    pub fn receive(&mut self) -> (tokens: Option<(VirtualRxToken, VirtualTxToken<'_>)>)
        requires
            old(self)@.wf(),
        ensures
            final(self)@.wf(),
            old(self)@.receives(
                final(self)@,
                match tokens {
                    Some((packet, _)) => Some(packet@),
                    None => None,
                },
            ),
            tokens matches Some((_, token)) ==> token.channel() == old(self)@.egress,
            tokens is None && final(self)@.held is Some ==> old(self).refused(),
            tokens is None && final(self)@.held is None ==> old(self).found_empty(),
            final(self).egress_end() == old(self).egress_end(),
            tokens is Some || final(self)@.held is Some ==> final(self).requests()
                == old(self).requests() + 1,
            tokens is None && final(self)@.held is None ==> final(self).requests()
                == old(self).requests(),
            tokens is None && final(self)@.held is Some ==> sender_refused(
                old(self).egress_end(),
                old(self).requests(),
            ),
            old(self)@.supplied() && !sender_refused(old(self).egress_end(), old(self).requests())
                ==> tokens is Some,
            tokens matches Some((packet, _)) ==> match old(self)@.held {
                Some(held) => packet@ == held && final(self).ingress_end()
                    == old(self).ingress_end(),
                None => unbounded_receiver_taken(final(self).ingress_end())
                    == unbounded_receiver_taken(old(self).ingress_end()).push(packet@),
            },
            tokens is None && old(self)@.held is Some ==> final(self)@ == old(self)@
                && final(self).ingress_end() == old(self).ingress_end(),
    {
        let buffer = match self.pending_in_buf.take() {
            Some(buffer) => buffer,
            None => match try_recv(&mut self.in_buf) {
                Some(buffer) => buffer,
                None => return None,
            },
        };
        assert(old(self)@.taking(buffer@, true).held == Some(buffer@));
        match pair_tokens(buffer, try_reserve(&mut self.out_buf)) {
            Ok(tokens) => Some(tokens),
            Err(buffer) => {
                // Hold on to the packet and retry later instead of dropping it.
                self.pending_in_buf = Some(buffer);
                None
            },
        }
    }

    /// The permit to send one packet out, where there is one. There is none where the outgoing
    /// channel was found full or closed, by the one request for a place that a call makes.
    pub fn transmit(&mut self) -> (token: Option<VirtualTxToken<'_>>)
        ensures
            final(self)@ == old(self)@,
            token matches Some(token) ==> token.channel() == old(self)@.egress,
            token is None ==> old(self).refused(),
            token is None ==> sender_refused(old(self).egress_end(), old(self).requests()),
            final(self).egress_end() == old(self).egress_end(),
            final(self).requests() == old(self).requests() + 1,
            final(self).ingress_end() == old(self).ingress_end(),
    {
        VirtualTxToken::granted(try_reserve(&mut self.out_buf))
    }

    /// What the device can do: it carries IP packets up to the size that it was made for.
    pub fn capabilities(&self) -> (capabilities: DeviceCapabilities)
        ensures
            capabilities == ip_capabilities(self@.mtu),
            capabilities.medium == Medium::Ip,
            capabilities.max_transmission_unit == self@.mtu,
            capabilities.max_burst_size is None,
    {
        let mut capabilities = default_capabilities();
        capabilities.medium = Medium::Ip;
        capabilities.max_transmission_unit = self.mtu;
        capabilities
    }
}

/// Whether there is a packet to hand out, given whether one is held back and whether the
/// channel is empty.
pub fn pending_ingress(held_back: bool, channel_empty: bool) -> (pending: bool)
    ensures
        pending == (held_back || !channel_empty),
{
    held_back || !channel_empty
}

/// Pairs a packet with the permit to send one out. Without a permit the packet comes back.
pub fn pair_tokens<'a>(buffer: Vec<u8>, permit: Option<Permit<'a, Vec<u8>>>) -> (tokens: Result<
    (VirtualRxToken, VirtualTxToken<'a>),
    Vec<u8>,
>)
    ensures
        match (permit, tokens) {
            (Some(permit), Ok((packet, token))) => packet@ == buffer@ && token.channel()
                == permit_channel(permit),
            (None, Err(packet)) => packet@ == buffer@,
            _ => false,
        },
{
    match permit {
        Some(permit) => Ok((VirtualRxToken { buffer }, VirtualTxToken { permit })),
        None => Err(buffer),
    }
}

/// What is known of a device is what is known of the ends of its two channels: the packets that
/// it has taken are those that came by its incoming end, octet for octet, and whether a channel
/// was found empty, full or closed was found at that end.
pub proof fn law_device_is_its_channels(device: VirtualDevice, places: usize)
    ensures
        device@.ingress == unbounded_receiver_channel(device.ingress_end()),
        device@.taken == unbounded_receiver_taken(device.ingress_end()),
        device@.stocked == unbounded_receiver_stocked(device.ingress_end()),
        device@.egress == sender_channel(device.egress_end()),
        device.found_empty() <==> unbounded_receiver_found_empty(device.ingress_end()),
        device.found_with(places) <==> sender_found_with(
            device.egress_end(),
            device.requests(),
            places,
        ),
        device.refused() <==> sender_refused(device.egress_end(), device.requests()),
{
}

/// Nothing but the outgoing channel keeps a packet that there is from being handed out. Where a
/// call of [`VirtualDevice::receive`] leads from `device` to `after`, and since the last request
/// for a place that channel was never full nor closed until the call's own request was over, a
/// packet that is held back is handed out, and else one that is on the incoming channel, as it
/// came.
pub proof fn law_room_hands_the_packet_out(
    device: VirtualDevice,
    after: VirtualDevice,
    answer: Option<Seq<u8>>,
)
    requires
        device@.receives(after@, answer),
        answer is None && after@.held is Some ==> device.refused(),
        !sender_refused(device.egress_end(), device.requests()),
        device@.held is Some || unbounded_receiver_stocked(device.ingress_end()),
    ensures
        answer is Some,
        after@.held is None,
        match device@.held {
            Some(held) => answer == Some(held),
            None => unbounded_receiver_taken(after.ingress_end()) == unbounded_receiver_taken(
                device.ingress_end(),
            ).push(answer->0),
        },
{
}

/// A new packet to be filled has as many octets as were asked for, and every one of them is
/// zero.
pub proof fn law_new_packet_is_blank(len: nat, i: int)
    requires
        0 <= i < len,
    ensures
        zeros(len).len() == len,
        zeros(len)[i] == 0,
{
}

/// A device carries bare IP packets up to its size and no larger, sets no limit on bursts, and
/// leaves every checksum to the interface, coming in and going out. So two devices can do the
/// same exactly where their sizes are the same.
pub proof fn law_capabilities(mtu: usize, other: usize)
    ensures
        ip_capabilities(mtu).medium == Medium::Ip,
        ip_capabilities(mtu).max_transmission_unit == mtu,
        ip_capabilities(mtu).max_burst_size is None,
        ip_capabilities(mtu).checksum.ipv4.rx && ip_capabilities(mtu).checksum.ipv4.tx,
        ip_capabilities(mtu).checksum.udp.rx && ip_capabilities(mtu).checksum.udp.tx,
        ip_capabilities(mtu).checksum.tcp.rx && ip_capabilities(mtu).checksum.tcp.tx,
        ip_capabilities(mtu).checksum.icmpv4.rx && ip_capabilities(mtu).checksum.icmpv4.tx,
        ip_capabilities(mtu).checksum.icmpv6.rx && ip_capabilities(mtu).checksum.icmpv6.tx,
        ip_capabilities(mtu) == ip_capabilities(other) <==> mtu == other,
{
}

} // verus!
