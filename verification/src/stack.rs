//! The stack itself: packets go in by [`Stack::start_send`] and on to the endpoint of their
//! protocol, and the packets of all endpoints come out by [`Stack::poll_next`].

use crate::channel::{
    channel_limit, clone_sender, close, context_task, open_channel, poll_recv, poll_reserve,
    poll_sender, poll_sender_channel, poll_sender_closed, poll_sender_in_line,
    poll_sender_reserved, poll_sender_sent, poll_sender_task, receiver_channel, receiver_closed,
    receiver_ended, receiver_in_line, receiver_taken, receiver_task, send_item, sender_channel,
    valid_limit, Reservation,
};
use crate::addr::IpAddr;
use crate::error::{ErrorKind, StackError};
use crate::filter::{
    all_accept, all_total, may_decide, takes_all, IpFilter, IpFilters, NonBroadcast,
};
use crate::packet::{packet_of, wire_error_text, AnyIpPktFrame, IpPacket, IpProtocol};
use crate::poll::Poll;
use std::task::Context;
use tokio::sync::mpsc::{Receiver, Sender};
use tokio_util::sync::PollSender;
use vstd::prelude::*;

verus! {

/// What is known of the stack's end of the way to one endpoint.
pub struct PortView {
    /// The channel to the endpoint.
    pub channel: int,
    /// The packets that have been put on it so far.
    pub sent: Seq<Seq<u8>>,
    /// Whether a place on it is held.
    pub reserved: bool,
    /// Whether the stack is in line for a place on it.
    pub in_line: bool,
    /// Whether it has been found closed.
    pub closed: bool,
}

/// What is known of the stack's end of the way out.
pub struct ExitView {
    /// The channel that the endpoints put their packets on.
    pub channel: int,
    /// The packets that have been taken from it so far.
    pub taken: Seq<Seq<u8>>,
    /// Whether the stack has closed it.
    pub closed: bool,
    /// Whether the stack is in line for a packet on it.
    pub in_line: bool,
    /// Whether it has been found closed and drained.
    pub ended: bool,
}

/// What is known of a stack.
pub struct StackView {
    /// The rules that a packet has to pass to come in.
    pub filters: Seq<IpFilter<'static>>,
    /// The packet that has come in and waits for a place on the channel of its protocol.
    pub waiting: Option<(Seq<u8>, IpProtocol)>,
    pub udp: Option<PortView>,
    pub tcp: Option<PortView>,
    pub icmp: Option<PortView>,
    pub exit: ExitView,
}

/// What came of an attempt to pass the waiting packet on.
pub enum Progress {
    /// No packet waits any more.
    Done,
    /// The packet still waits.
    Waiting,
    /// The channel is closed and the packet is gone.
    Failed,
}

/// How an answer of the sink reads as progress.
pub open spec fn progress_of(answer: Poll<Result<(), StackError>>) -> Progress {
    match answer {
        Poll::Ready(Ok(())) => Progress::Done,
        Poll::Ready(Err(_)) => Progress::Failed,
        Poll::Pending => Progress::Waiting,
    }
}

/// How an answer of the stream reads, its packet taken by its octets.
pub open spec fn octets_of(answer: Poll<Option<Result<AnyIpPktFrame, StackError>>>) -> Poll<
    Option<Seq<u8>>,
> {
    match answer {
        Poll::Ready(Some(Ok(packet))) => Poll::Ready(Some(packet@)),
        Poll::Ready(_) => Poll::Ready(None),
        Poll::Pending => Poll::Pending,
    }
}

/// The text of the error on a closed channel.
pub open spec fn closed_text() -> Seq<char> {
    "channel is closed"@
}

/// The text of the error on octets that are no IP packet.
pub open spec fn invalid_text() -> Seq<char> {
    "invalid IP packet: "@ + "wire::Error"@
}

impl StackView {
    /// Only packets of protocols that the stack carries wait, and no place on a channel is held
    /// between two calls.
    pub open spec fn wf(self) -> bool {
        &&& self.waiting matches Some((_, protocol)) ==> protocol.carried()
        &&& self.udp matches Some(port) ==> !port.reserved
        &&& self.tcp matches Some(port) ==> !port.reserved
        &&& self.icmp matches Some(port) ==> !port.reserved
    }

    /// Whether the rules can be asked about a packet with these octets, where there is anything
    /// to ask.
    pub open spec fn can_judge(self, item: Seq<u8>) -> bool {
        item.len() > 0 ==> (packet_of(item) matches Some(packet) ==> all_accept(
            self.filters,
            packet.src_addr,
            packet.dst_addr,
        ))
    }

    /// The way to the endpoint of a protocol. Both versions of ICMP share one.
    pub open spec fn port(self, protocol: IpProtocol) -> Option<PortView> {
        match protocol {
            IpProtocol::Tcp => self.tcp,
            IpProtocol::Udp => self.udp,
            IpProtocol::Icmp | IpProtocol::Icmpv6 => self.icmp,
            IpProtocol::Other(_) => None,
        }
    }

    /// The stack with another state of the way to the endpoint of a protocol.
    pub open spec fn with_port(self, protocol: IpProtocol, port: PortView) -> StackView {
        match protocol {
            IpProtocol::Tcp => StackView { tcp: Some(port), ..self },
            IpProtocol::Udp => StackView { udp: Some(port), ..self },
            IpProtocol::Icmp | IpProtocol::Icmpv6 => StackView { icmp: Some(port), ..self },
            IpProtocol::Other(_) => self,
        }
    }

    /// The stack without a waiting packet.
    pub open spec fn emptied(self) -> StackView {
        StackView { waiting: None, ..self }
    }

    /// The stack with this packet waiting.
    pub open spec fn holding(self, packet: Seq<u8>, protocol: IpProtocol) -> StackView {
        StackView { waiting: Some((packet, protocol)), ..self }
    }

    /// Whether an attempt to pass the waiting packet on may lead from this state to `post` with
    /// this progress.
    ///
    /// Without a waiting packet nothing happens. A packet whose protocol has no endpoint is
    /// dropped. Any other packet is put on the channel of its protocol, or still waits, in line
    /// for a place on that channel, or is lost to a closed channel.
    pub open spec fn sends(self, post: StackView, progress: Progress) -> bool {
        match self.waiting {
            None => post == self && progress is Done,
            Some((packet, protocol)) => match self.port(protocol) {
                None => post == self.emptied() && progress is Done,
                Some(port) => match progress {
                    Progress::Done => !port.closed && post == self.emptied().with_port(
                        protocol,
                        PortView { sent: port.sent.push(packet), in_line: false, ..port },
                    ),
                    Progress::Waiting => !port.closed && post == self.with_port(
                        protocol,
                        PortView { in_line: true, ..port },
                    ),
                    Progress::Failed => post == self.emptied().with_port(
                        protocol,
                        PortView { closed: true, in_line: false, ..port },
                    ),
                },
            },
        }
    }

    /// Whether asking for the next packet of the endpoints may lead from this state to `post`
    /// with this answer.
    ///
    /// A packet is taken from the way out. `None` says that the way out is closed and drained,
    /// and no packet comes after it. `Pending` puts the stack in line.
    pub open spec fn gives(self, post: StackView, answer: Poll<Option<Seq<u8>>>) -> bool {
        &&& post == (StackView {
            exit: match answer {
                Poll::Ready(Some(packet)) => ExitView {
                    taken: self.exit.taken.push(packet),
                    in_line: false,
                    ..self.exit
                },
                Poll::Ready(None) => ExitView { ended: true, in_line: false, ..self.exit },
                Poll::Pending => ExitView { in_line: true, ..self.exit },
            },
            ..self
        })
        &&& self.exit.ended ==> !(answer matches Poll::Ready(Some(_)))
    }

    /// The stack with its way out closed.
    pub open spec fn shut(self) -> StackView {
        StackView { exit: ExitView { closed: true, ..self.exit }, ..self }
    }

    /// The stack after a packet was offered on which the rules have come to `verdict`.
    pub open spec fn offered(
        self,
        packet: Seq<u8>,
        protocol: IpProtocol,
        verdict: bool,
    ) -> StackView {
        if verdict && protocol.carried() {
            self.holding(packet, protocol)
        } else {
            self
        }
    }
}

/// What to do with the waiting packet once it is known whether there is a place for it.
pub enum SendStep {
    /// Put it on the channel.
    Deliver(AnyIpPktFrame),
    /// Let it wait.
    Keep(AnyIpPktFrame, IpProtocol),
    /// Give it up and report the error.
    Fail(StackError),
}

/// What to do with the waiting packet, given what came of asking for a place on its channel.
pub fn next_step(item: AnyIpPktFrame, protocol: IpProtocol, outcome: Reservation) -> (step:
    SendStep)
    ensures
        match outcome {
            Reservation::Granted => step matches SendStep::Deliver(packet) && packet@ == item@,
            Reservation::Waiting => step matches SendStep::Keep(packet, kept) && packet@ == item@
                && kept == protocol,
            Reservation::Closed => step matches SendStep::Fail(error) && error.is(
                ErrorKind::BrokenPipe,
                closed_text(),
            ) && error.kind == ErrorKind::BrokenPipe && error.message@ == "channel is closed"@,
        },
{
    match outcome {
        Reservation::Granted => SendStep::Deliver(item),
        Reservation::Waiting => SendStep::Keep(item, protocol),
        Reservation::Closed => SendStep::Fail(channel_closed_err("channel is closed")),
    }
}

/// What became of a packet that was offered to the stack.
#[derive(Clone, Copy, Debug, PartialEq, Eq)]
pub enum Intake {
    /// It had no octets.
    Empty,
    /// A rule refused it by its source and destination address.
    Filtered(IpAddr, IpAddr),
    /// The stack does not carry its protocol.
    Ignored(IpProtocol),
    /// It waits to be passed on to the endpoint of its protocol.
    Waiting(IpProtocol),
}

/// What becomes of a packet on which the rules have come to `verdict`.
pub open spec fn intake_of(packet: IpPacket, verdict: bool) -> Intake {
    if !verdict {
        Intake::Filtered(packet.src_addr, packet.dst_addr)
    } else if !packet.protocol.carried() {
        Intake::Ignored(packet.protocol)
    } else {
        Intake::Waiting(packet.protocol)
    }
}

/// What becomes of a packet, given whether the rules let it pass.
pub fn admission(packet: &IpPacket, addr_allowed: bool) -> (intake: Intake)
    ensures
        intake == intake_of(*packet, addr_allowed),
{
    if !addr_allowed {
        Intake::Filtered(packet.src_addr, packet.dst_addr)
    } else if !packet.protocol.is_carried() {
        Intake::Ignored(packet.protocol)
    } else {
        Intake::Waiting(packet.protocol)
    }
}

/// The error on a channel that is closed.
pub fn channel_closed_err(err: &str) -> (error: StackError)
    ensures
        error.is(ErrorKind::BrokenPipe, err@),
        error.kind == ErrorKind::BrokenPipe,
        error.message@ == err@,
{
    StackError { kind: ErrorKind::BrokenPipe, message: err.to_owned() }
}

/// The error on octets that are no IP packet.
fn invalid_packet_err(err: &smoltcp::wire::Error) -> (error: StackError)
    ensures
        error.is(ErrorKind::InvalidInput, invalid_text()),
{
    let message = "invalid IP packet: ".to_owned().concat(wire_error_text(err).as_str());
    StackError { kind: ErrorKind::InvalidInput, message }
}

/// A network stack between one stream of IP packets and the endpoints of the protocols.
pub struct Stack {
    ip_filters: IpFilters<'static>,
    sink_buf: Option<(AnyIpPktFrame, IpProtocol)>,
    udp_tx: Option<PollSender<AnyIpPktFrame>>,
    tcp_tx: Option<PollSender<AnyIpPktFrame>>,
    icmp_tx: Option<PollSender<AnyIpPktFrame>>,
    stack_rx: Receiver<AnyIpPktFrame>,
}

spec fn port_view(sender: Option<PollSender<AnyIpPktFrame>>) -> Option<PortView> {
    match sender {
        Some(sender) => Some(
            PortView {
                channel: poll_sender_channel(sender),
                sent: poll_sender_sent(sender),
                reserved: poll_sender_reserved(sender),
                in_line: poll_sender_in_line(sender),
                closed: poll_sender_closed(sender),
            },
        ),
        None => None,
    }
}

impl View for Stack {
    type V = StackView;

    closed spec fn view(&self) -> StackView {
        StackView {
            filters: self.ip_filters@,
            waiting: match self.sink_buf {
                Some((packet, protocol)) => Some((packet@, protocol)),
                None => None,
            },
            udp: port_view(self.udp_tx),
            tcp: port_view(self.tcp_tx),
            icmp: port_view(self.icmp_tx),
            exit: ExitView {
                channel: receiver_channel(self.stack_rx),
                taken: receiver_taken(self.stack_rx),
                closed: receiver_closed(self.stack_rx),
                in_line: receiver_in_line(self.stack_rx),
                ended: receiver_ended(self.stack_rx),
            },
        }
    }
}

impl Stack {
    /// The end of the way to the UDP endpoint, where there is one.
    pub closed spec fn udp_end(self) -> Option<PollSender<AnyIpPktFrame>> {
        self.udp_tx
    }

    /// The end of the way to the TCP endpoint, where there is one.
    pub closed spec fn tcp_end(self) -> Option<PollSender<AnyIpPktFrame>> {
        self.tcp_tx
    }

    /// The end of the way that ICMP packets go, where there is one.
    pub closed spec fn icmp_end(self) -> Option<PollSender<AnyIpPktFrame>> {
        self.icmp_tx
    }

    /// The end of the way out.
    pub closed spec fn exit_end(self) -> Receiver<AnyIpPktFrame> {
        self.stack_rx
    }

    /// The task that is to be woken when there is a place for a waiting packet of a protocol.
    pub closed spec fn sink_task(self, protocol: IpProtocol) -> int {
        match protocol {
            IpProtocol::Tcp => poll_sender_task(self.tcp_tx->0),
            IpProtocol::Udp => poll_sender_task(self.udp_tx->0),
            _ => poll_sender_task(self.icmp_tx->0),
        }
    }

    /// The task that is to be woken when there is a packet to give out, or none will come.
    pub closed spec fn stream_task(self) -> int {
        receiver_task(self.stack_rx)
    }

    /// Tries to pass the waiting packet on to the endpoint of its protocol.
    fn poll_send(&mut self, cx: &mut Context<'_>) -> (answer: Poll<Result<(), StackError>>)
        requires
            old(self)@.wf(),
        ensures
            final(self)@.wf(),
            old(self)@.sends(final(self)@, progress_of(answer)),
            answer matches Poll::Ready(Err(error)) ==> error.is(
                ErrorKind::BrokenPipe,
                closed_text(),
            ),
            answer matches Poll::Ready(Err(error)) ==> error.kind == ErrorKind::BrokenPipe
                && error.message@ == "channel is closed"@,
            final(self).exit_end() == old(self).exit_end(),
            answer is Pending ==> (old(self)@.waiting matches Some((_, protocol))
                && final(self).sink_task(protocol) == context_task(*old(cx))),
            context_task(*final(cx)) == context_task(*old(cx)),
    {
        let (item, proto) = match self.sink_buf.take() {
            Some(val) => val,
            None => return Poll::Ready(Ok(())),
        };
        let sender = match proto {
            IpProtocol::Tcp => self.tcp_tx.as_mut(),
            IpProtocol::Udp => self.udp_tx.as_mut(),
            IpProtocol::Icmp | IpProtocol::Icmpv6 => self.icmp_tx.as_mut(),
            IpProtocol::Other(_) => {
                assert(false);
                None
            },
        };
        let sender = match sender {
            Some(sender) => sender,
            None => return Poll::Ready(Ok(())),
        };
        match next_step(item, proto, poll_reserve(sender, cx)) {
            SendStep::Deliver(item) => {
                if !send_item(sender, item) {
                    return Poll::Ready(Err(channel_closed_err("channel is closed")));
                }
                Poll::Ready(Ok(()))
            },
            SendStep::Keep(item, proto) => {
                self.sink_buf = Some((item, proto));
                Poll::Pending
            },
            SendStep::Fail(error) => Poll::Ready(Err(error)),
        }
    }

    /// The next packet that an endpoint has sent. `None` says that there will be no more.
    pub fn poll_next(&mut self, cx: &mut Context<'_>) -> (item: Poll<
        Option<Result<AnyIpPktFrame, StackError>>,
    >)
        ensures
            old(self)@.gives(final(self)@, octets_of(item)),
            !(item matches Poll::Ready(Some(Err(_)))),
            item is Pending ==> final(self).stream_task() == context_task(*old(cx)),
            context_task(*final(cx)) == context_task(*old(cx)),
            match item {
                Poll::Ready(Some(Ok(packet))) => {
                    &&& final(self)@.exit.taken == old(self)@.exit.taken.push(packet@)
                    &&& receiver_taken(final(self).exit_end()) == receiver_taken(
                        old(self).exit_end(),
                    ).push(packet@)
                    &&& !receiver_ended(old(self).exit_end())
                },
                Poll::Ready(Some(Err(_))) => false,
                Poll::Ready(None) => {
                    &&& receiver_taken(final(self).exit_end()) == receiver_taken(
                        old(self).exit_end(),
                    )
                    &&& receiver_ended(final(self).exit_end())
                },
                Poll::Pending => {
                    &&& receiver_taken(final(self).exit_end()) == receiver_taken(
                        old(self).exit_end(),
                    )
                    &&& receiver_in_line(final(self).exit_end())
                    &&& receiver_task(final(self).exit_end()) == context_task(*old(cx))
                },
            },
            final(self)@.waiting == old(self)@.waiting,
            final(self)@.filters == old(self)@.filters,
            final(self).udp_end() == old(self).udp_end(),
            final(self).tcp_end() == old(self).tcp_end(),
            final(self).icmp_end() == old(self).icmp_end(),
    {
        stream_item(poll_recv(&mut self.stack_rx, cx))
    }

    /// Makes room for a packet: tries to pass the waiting one on, where there is one.
    pub fn poll_ready(&mut self, cx: &mut Context<'_>) -> (answer: Poll<Result<(), StackError>>)
        requires
            old(self)@.wf(),
        ensures
            final(self)@.wf(),
            old(self)@.sends(final(self)@, progress_of(answer)),
            answer matches Poll::Ready(Err(error)) ==> error.is(
                ErrorKind::BrokenPipe,
                closed_text(),
            ),
            answer matches Poll::Ready(Err(error)) ==> error.kind == ErrorKind::BrokenPipe
                && error.message@ == "channel is closed"@,
            final(self).exit_end() == old(self).exit_end(),
            answer is Pending ==> (old(self)@.waiting matches Some((_, protocol))
                && final(self).sink_task(protocol) == context_task(*old(cx))),
            context_task(*final(cx)) == context_task(*old(cx)),
    {
        if self.sink_buf.is_some() {
            self.poll_send(cx)
        } else {
            Poll::Ready(Ok(()))
        }
    }

    /// Takes a packet in. It waits until the next call of [`Stack::poll_ready`] or
    /// [`Stack::poll_flush`] passes it on, in the place of a packet that waited before.
    ///
    /// An empty packet, one that the rules refuse, and one of a protocol that the stack does not
    /// carry are dropped. Octets that are no IP packet are an error. All of these leave the
    /// stack as it was.
    pub fn start_send(&mut self, item: AnyIpPktFrame) -> (answer: Result<(), StackError>)
        requires
            old(self)@.wf(),
            old(self)@.can_judge(item@),
        ensures
            final(self)@.wf(),
            item@.len() == 0 ==> answer is Ok && final(self)@ == old(self)@,
            item@.len() > 0 ==> match packet_of(item@) {
                None => {
                    &&& final(self)@ == old(self)@
                    &&& answer matches Err(error)
                    &&& error.is(ErrorKind::InvalidInput, invalid_text())
                },
                Some(packet) => answer is Ok && exists|verdict: bool| #[trigger]
                    may_decide(old(self)@.filters, packet.src_addr, packet.dst_addr, verdict)
                        && final(self)@ == old(self)@.offered(item@, packet.protocol, verdict),
            },
            answer matches Err(error) ==> error.kind == ErrorKind::InvalidInput && error.message@
                == "invalid IP packet: "@ + "wire::Error"@,
            final(self)@.waiting == old(self)@.waiting || (final(self)@.waiting matches Some(
                (packet, _),
            ) && packet == item@),
            final(self)@.filters == old(self)@.filters,
            final(self).udp_end() == old(self).udp_end(),
            final(self).tcp_end() == old(self).tcp_end(),
            final(self).icmp_end() == old(self).icmp_end(),
            final(self).exit_end() == old(self).exit_end(),
    {
        match self.take_in(item) {
            Ok(_) => Ok(()),
            Err(error) => Err(error),
        }
    }

    /// Takes a packet in as [`Stack::start_send`] does, and tells what became of it.
    pub fn take_in(&mut self, item: AnyIpPktFrame) -> (answer: Result<Intake, StackError>)
        requires
            old(self)@.wf(),
            old(self)@.can_judge(item@),
        ensures
            final(self)@.wf(),
            item@.len() == 0 ==> answer == Ok::<Intake, StackError>(Intake::Empty) && final(self)@
                == old(self)@,
            item@.len() > 0 ==> match packet_of(item@) {
                None => {
                    &&& final(self)@ == old(self)@
                    &&& answer matches Err(error)
                    &&& error.is(ErrorKind::InvalidInput, invalid_text())
                },
                Some(packet) => exists|verdict: bool| #[trigger]
                    may_decide(old(self)@.filters, packet.src_addr, packet.dst_addr, verdict)
                        && final(self)@ == old(self)@.offered(item@, packet.protocol, verdict)
                        && answer == Ok::<Intake, StackError>(intake_of(packet, verdict)),
            },
            match answer {
                Ok(Intake::Waiting(protocol)) => {
                    &&& final(self)@.waiting == Some((item@, protocol))
                    &&& !(protocol is Other)
                },
                _ => final(self)@ == old(self)@,
            },
            answer matches Err(error) ==> error.kind == ErrorKind::InvalidInput && error.message@
                == "invalid IP packet: "@ + "wire::Error"@,
            final(self)@.filters == old(self)@.filters,
            final(self).udp_end() == old(self).udp_end(),
            final(self).tcp_end() == old(self).tcp_end(),
            final(self).icmp_end() == old(self).icmp_end(),
            final(self).exit_end() == old(self).exit_end(),
    {
        if item.is_empty() {
            return Ok(Intake::Empty);
        }
        let packet = match IpPacket::new_checked(item.as_slice()) {
            Ok(packet) => packet,
            Err(err) => return Err(invalid_packet_err(&err)),
        };
        let addr_allowed = self.ip_filters.is_allowed(&packet.src_addr, &packet.dst_addr);
        assert(may_decide(self@.filters, packet.src_addr, packet.dst_addr, addr_allowed));
        let intake = admission(&packet, addr_allowed);
        if let Intake::Waiting(protocol) = intake {
            self.sink_buf = Some((item, protocol));
        }
        Ok(intake)
    }

    /// Tries to pass the waiting packet on.
    pub fn poll_flush(&mut self, cx: &mut Context<'_>) -> (answer: Poll<Result<(), StackError>>)
        requires
            old(self)@.wf(),
        ensures
            final(self)@.wf(),
            old(self)@.sends(final(self)@, progress_of(answer)),
            answer matches Poll::Ready(Err(error)) ==> error.is(
                ErrorKind::BrokenPipe,
                closed_text(),
            ),
            answer matches Poll::Ready(Err(error)) ==> error.kind == ErrorKind::BrokenPipe
                && error.message@ == "channel is closed"@,
            final(self).exit_end() == old(self).exit_end(),
            answer is Pending ==> (old(self)@.waiting matches Some((_, protocol))
                && final(self).sink_task(protocol) == context_task(*old(cx))),
            context_task(*final(cx)) == context_task(*old(cx)),
    {
        self.poll_send(cx)
    }

    /// Closes the way out: the endpoints can send no more.
    pub fn poll_close(&mut self, _cx: &mut Context<'_>) -> (answer: Poll<Result<(), StackError>>)
        ensures
            answer matches Poll::Ready(Ok(())),
            final(self)@ == old(self)@.shut(),
            receiver_closed(final(self).exit_end()),
            receiver_taken(final(self).exit_end()) == receiver_taken(old(self).exit_end()),
            final(self).udp_end() == old(self).udp_end(),
            final(self).tcp_end() == old(self).tcp_end(),
            final(self).icmp_end() == old(self).icmp_end(),
            *final(_cx) == *old(_cx),
    {
        close(&mut self.stack_rx);
        Poll::Ready(Ok(()))
    }
}

/// What is known of a stack is what is known of the ends of its channels: the packets on the way
/// to an endpoint are those that were put on its channel, and the packets that came out are those
/// that were taken from the way out, octet for octet. The task that is to be woken is the one that
/// the end in question is to wake.
pub proof fn law_stack_is_its_channels(stack: Stack, protocol: IpProtocol)
    ensures
        match (stack@.udp, stack.udp_end()) {
            (Some(port), Some(end)) => {
                &&& port.channel == poll_sender_channel(end)
                &&& port.sent == poll_sender_sent(end)
                &&& port.reserved == poll_sender_reserved(end)
                &&& port.in_line == poll_sender_in_line(end)
                &&& port.closed == poll_sender_closed(end)
                &&& protocol is Udp ==> stack.sink_task(protocol) == poll_sender_task(end)
            },
            (None, None) => true,
            _ => false,
        },
        match (stack@.tcp, stack.tcp_end()) {
            (Some(port), Some(end)) => {
                &&& port.channel == poll_sender_channel(end)
                &&& port.sent == poll_sender_sent(end)
                &&& port.reserved == poll_sender_reserved(end)
                &&& port.in_line == poll_sender_in_line(end)
                &&& port.closed == poll_sender_closed(end)
                &&& protocol is Tcp ==> stack.sink_task(protocol) == poll_sender_task(end)
            },
            (None, None) => true,
            _ => false,
        },
        match (stack@.icmp, stack.icmp_end()) {
            (Some(port), Some(end)) => {
                &&& port.channel == poll_sender_channel(end)
                &&& port.sent == poll_sender_sent(end)
                &&& port.reserved == poll_sender_reserved(end)
                &&& port.in_line == poll_sender_in_line(end)
                &&& port.closed == poll_sender_closed(end)
                &&& protocol is Icmp || protocol is Icmpv6 ==> stack.sink_task(protocol)
                    == poll_sender_task(end)
            },
            (None, None) => true,
            _ => false,
        },
        stack@.exit.channel == receiver_channel(stack.exit_end()),
        stack@.exit.taken == receiver_taken(stack.exit_end()),
        stack@.exit.closed == receiver_closed(stack.exit_end()),
        stack@.exit.in_line == receiver_in_line(stack.exit_end()),
        stack@.exit.ended == receiver_ended(stack.exit_end()),
        stack.stream_task() == receiver_task(stack.exit_end()),
{
}

/// How the stack presents what came of asking its way out for a packet.
pub fn stream_item(outcome: Poll<Option<AnyIpPktFrame>>) -> (item: Poll<
    Option<Result<AnyIpPktFrame, StackError>>,
>)
    ensures
        match outcome {
            Poll::Ready(Some(packet)) => item matches Poll::Ready(Some(Ok(given))) && given@
                == packet@,
            Poll::Ready(None) => item matches Poll::Ready(None),
            Poll::Pending => item is Pending,
        },
{
    match outcome {
        Poll::Ready(Some(packet)) => Poll::Ready(Some(Ok(packet))),
        Poll::Ready(None) => Poll::Ready(None),
        Poll::Pending => Poll::Pending,
    }
}

/// The settings of a stack that is yet to be built.
pub struct StackConfig {
    pub enable_udp: bool,
    pub enable_tcp: bool,
    pub enable_icmp: bool,
    pub mtu: usize,
    pub stack_buffer_size: usize,
    pub udp_buffer_size: usize,
    pub tcp_buffer_size: usize,
    pub ip_filters: Seq<IpFilter<'static>>,
}

impl StackConfig {
    /// Whether every channel that the settings ask for can be made.
    pub open spec fn sizes_valid(self) -> bool {
        &&& valid_limit(self.stack_buffer_size)
        &&& self.enable_udp ==> valid_limit(self.udp_buffer_size)
        &&& self.enable_tcp ==> valid_limit(self.tcp_buffer_size)
    }

    /// Whether the settings ask for ICMP without the TCP interface that answers it.
    pub open spec fn icmp_without_tcp(self) -> bool {
        self.enable_icmp && !self.enable_tcp
    }
}

/// The channel ends of the UDP endpoint.
pub struct UdpEndpoint {
    /// The UDP packets that have come in.
    pub packets: Receiver<AnyIpPktFrame>,
    /// The way out for its own packets.
    pub replies: Sender<AnyIpPktFrame>,
}

/// The channel ends of the TCP endpoint, which answers ICMP as well.
pub struct TcpEndpoint {
    /// The TCP packets that have come in, and the ICMP packets where they are enabled.
    pub packets: Receiver<AnyIpPktFrame>,
    /// The way out for its own packets.
    pub replies: Sender<AnyIpPktFrame>,
    /// The size of the largest packet that it may send.
    pub mtu: usize,
}

/// The way to an endpoint before any packet has gone it.
pub open spec fn fresh_port(channel: int) -> PortView {
    PortView { channel, sent: Seq::empty(), reserved: false, in_line: false, closed: false }
}

/// Whether an endpoint's ends are new, `packets` on a channel of this limit that `port` leads
/// to, and `replies` on the stack's way out.
pub open spec fn connected(
    port: Option<PortView>,
    exit: ExitView,
    packets: Receiver<AnyIpPktFrame>,
    replies: Sender<AnyIpPktFrame>,
    limit: usize,
) -> bool {
    &&& port == Some(fresh_port(receiver_channel(packets)))
    &&& channel_limit(receiver_channel(packets)) == limit
    &&& receiver_taken(packets) == Seq::<Seq<u8>>::empty()
    &&& !receiver_closed(packets)
    &&& sender_channel(replies) == exit.channel
}

/// Whether a stack and its endpoints are what the settings ask for: an endpoint for each of UDP
/// and TCP that is enabled, connected to the stack both ways, and no other; ICMP, where it is
/// enabled, on the channel of TCP.
pub open spec fn built(
    config: StackConfig,
    stack: StackView,
    udp: Option<UdpEndpoint>,
    tcp: Option<TcpEndpoint>,
) -> bool {
    &&& stack.filters == config.ip_filters
    &&& stack.waiting is None
    &&& channel_limit(stack.exit.channel) == config.stack_buffer_size
    &&& stack.exit.taken == Seq::<Seq<u8>>::empty()
    &&& !stack.exit.closed
    &&& !stack.exit.in_line
    &&& !stack.exit.ended
    &&& match udp {
        Some(end) => config.enable_udp && connected(
            stack.udp,
            stack.exit,
            end.packets,
            end.replies,
            config.udp_buffer_size,
        ),
        None => !config.enable_udp && stack.udp is None,
    }
    &&& match tcp {
        Some(end) => config.enable_tcp && end.mtu == config.mtu && connected(
            stack.tcp,
            stack.exit,
            end.packets,
            end.replies,
            config.tcp_buffer_size,
        ),
        None => !config.enable_tcp && stack.tcp is None,
    }
    &&& stack.icmp == (if config.enable_icmp {
        stack.tcp
    } else {
        None
    })
}

/// The settings of a stack, to be changed one by one before it is built.
pub struct StackBuilder {
    enable_udp: bool,
    enable_tcp: bool,
    enable_icmp: bool,
    mtu: usize,
    stack_buffer_size: usize,
    udp_buffer_size: usize,
    tcp_buffer_size: usize,
    ip_filters: IpFilters<'static>,
}

impl View for StackBuilder {
    type V = StackConfig;

    closed spec fn view(&self) -> StackConfig {
        StackConfig {
            enable_udp: self.enable_udp,
            enable_tcp: self.enable_tcp,
            enable_icmp: self.enable_icmp,
            mtu: self.mtu,
            stack_buffer_size: self.stack_buffer_size,
            udp_buffer_size: self.udp_buffer_size,
            tcp_buffer_size: self.tcp_buffer_size,
            ip_filters: self.ip_filters@,
        }
    }
}

impl Default for StackBuilder {
    /// No protocol enabled, packets of up to 1504 octets, room for 1024 packets on the way out
    /// and for 512 on the way to each endpoint, and the rule [`NonBroadcast`] alone.
    fn default() -> (builder: Self)
        ensures
            builder@ == (StackConfig {
                enable_udp: false,
                enable_tcp: false,
                enable_icmp: false,
                mtu: 1504,
                stack_buffer_size: 1024,
                udp_buffer_size: 512,
                tcp_buffer_size: 512,
                ip_filters: builder@.ip_filters,
            }),
            builder@.ip_filters.len() == 1,
            builder@.ip_filters[0].behaves_as(NonBroadcast),
            builder@.sizes_valid(),
            all_total(builder@.ip_filters),
    {
        StackBuilder {
            enable_udp: false,
            enable_tcp: false,
            enable_icmp: false,
            mtu: 1504,
            stack_buffer_size: 1024,
            udp_buffer_size: 512,
            tcp_buffer_size: 512,
            ip_filters: IpFilters::with_non_broadcast(),
        }
    }
}

impl StackBuilder {
    /// Whether there is to be a UDP endpoint.
    pub fn enable_udp(self, enable: bool) -> (builder: Self)
        ensures
            builder@ == (StackConfig { enable_udp: enable, ..self@ }),
    {
        StackBuilder { enable_udp: enable, ..self }
    }

    /// Whether there is to be a TCP endpoint.
    pub fn enable_tcp(self, enable: bool) -> (builder: Self)
        ensures
            builder@ == (StackConfig { enable_tcp: enable, ..self@ }),
    {
        StackBuilder { enable_tcp: enable, ..self }
    }

    /// Whether ICMP packets are to go to the TCP endpoint.
    pub fn enable_icmp(self, enable: bool) -> (builder: Self)
        ensures
            builder@ == (StackConfig { enable_icmp: enable, ..self@ }),
    {
        StackBuilder { enable_icmp: enable, ..self }
    }

    /// The size of the largest packet that the TCP endpoint may send.
    pub fn mtu(self, mtu: usize) -> (builder: Self)
        ensures
            builder@ == (StackConfig { mtu, ..self@ }),
    {
        StackBuilder { mtu, ..self }
    }

    /// The number of packets that the way out can hold.
    pub fn stack_buffer_size(self, size: usize) -> (builder: Self)
        ensures
            builder@ == (StackConfig { stack_buffer_size: size, ..self@ }),
    {
        StackBuilder { stack_buffer_size: size, ..self }
    }

    /// The number of packets that the way to the UDP endpoint can hold.
    pub fn udp_buffer_size(self, size: usize) -> (builder: Self)
        ensures
            builder@ == (StackConfig { udp_buffer_size: size, ..self@ }),
    {
        StackBuilder { udp_buffer_size: size, ..self }
    }

    /// The number of packets that the way to the TCP endpoint can hold.
    pub fn tcp_buffer_size(self, size: usize) -> (builder: Self)
        ensures
            builder@ == (StackConfig { tcp_buffer_size: size, ..self@ }),
    {
        StackBuilder { tcp_buffer_size: size, ..self }
    }

    /// The rules that a packet has to pass, in place of those so far.
    pub fn set_ip_filters(self, filters: IpFilters<'static>) -> (builder: Self)
        ensures
            builder@ == (StackConfig { ip_filters: filters@, ..self@ }),
    {
        StackBuilder { ip_filters: filters, ..self }
    }

    /// One more rule that a packet has to pass.
    pub fn add_ip_filter(self, filter: IpFilter<'static>) -> (builder: Self)
        ensures
            builder@ == (StackConfig { ip_filters: self@.ip_filters.push(filter), ..self@ }),
    {
        let mut builder = self;
        builder.ip_filters.add(filter);
        builder
    }

    /// One more rule that a packet has to pass, given as a predicate on its addresses.
    pub fn add_ip_filter_fn<F>(self, filter: F) -> (builder: Self) where
        F: Fn(&IpAddr, &IpAddr) -> bool + Send + Sync + 'static,

        ensures
            builder@ == (StackConfig { ip_filters: builder@.ip_filters, ..self@ }),
            builder@.ip_filters.len() == self@.ip_filters.len() + 1,
            builder@.ip_filters.drop_last() == self@.ip_filters,
            builder@.ip_filters.last().behaves_as(filter),
            all_total(self@.ip_filters) && takes_all(filter) ==> all_total(builder@.ip_filters),
    {
        let mut builder = self;
        builder.ip_filters.add_fn(filter);
        builder
    }

    /// Whether every channel that the settings ask for can be made: its size is not zero and at
    /// most an eighth of the `usize` range.
    pub fn sizes_valid(&self) -> (valid: bool)
        ensures
            valid == self@.sizes_valid(),
    {
        let largest: usize = usize::MAX / 8;
        0 < self.stack_buffer_size && self.stack_buffer_size <= largest && (!self.enable_udp || 0
            < self.udp_buffer_size && self.udp_buffer_size <= largest) && (!self.enable_tcp || 0
            < self.tcp_buffer_size && self.tcp_buffer_size <= largest)
    }

    /// Builds the stack and the channel ends of its endpoints. The one error is to ask for ICMP
    /// without TCP.
    pub fn build(self) -> (made: Result<
        (Stack, Option<UdpEndpoint>, Option<TcpEndpoint>),
        StackError,
    >)
        requires
            self@.sizes_valid(),
        ensures
            match made {
                Ok((stack, udp, tcp)) => {
                    &&& !self@.icmp_without_tcp()
                    &&& stack@.wf()
                    &&& built(self@, stack@, udp, tcp)
                    &&& stack@.filters == self@.ip_filters
                    &&& stack@.waiting is None
                    &&& udp is Some <==> self@.enable_udp
                    &&& tcp is Some <==> self@.enable_tcp
                    &&& stack.udp_end() is Some <==> self@.enable_udp
                    &&& stack.tcp_end() is Some <==> self@.enable_tcp
                    &&& stack.icmp_end() is Some <==> self@.enable_icmp
                    &&& !self@.enable_icmp || self@.enable_tcp
                },
                Err(error) => {
                    &&& self@.icmp_without_tcp()
                    &&& error.is(ErrorKind::InvalidInput, "ICMP requires TCP"@)
                    &&& self@.enable_icmp && !self@.enable_tcp
                    &&& error.kind == ErrorKind::InvalidInput
                    &&& error.message@ == "ICMP requires TCP"@
                },
            },
    {
        let (mut stack_tx, stack_rx) = open_channel(self.stack_buffer_size);

        let (udp_tx, udp_rx) = if self.enable_udp {
            let (udp_tx, udp_rx) = open_channel(self.udp_buffer_size);
            (Some(udp_tx), Some(udp_rx))
        } else {
            (None, None)
        };

        let (mut tcp_tx, tcp_rx) = if self.enable_tcp {
            let (tcp_tx, tcp_rx) = open_channel(self.tcp_buffer_size);
            (Some(tcp_tx), Some(tcp_rx))
        } else {
            (None, None)
        };

        // ICMP is answered by the interface behind the TCP endpoint.
        if self.enable_icmp && !self.enable_tcp {
            return Err(
                StackError {
                    kind: ErrorKind::InvalidInput,
                    message: "ICMP requires TCP".to_owned(),
                },
            );
        }
        let icmp_tx = if self.enable_icmp {
            match &mut tcp_tx {
                Some(tcp_tx) => Some(clone_sender(tcp_tx)),
                None => None,
            }
        } else {
            None
        };

        let udp_end = match udp_rx {
            Some(packets) => Some(UdpEndpoint { packets, replies: clone_sender(&mut stack_tx) }),
            None => None,
        };

        let tcp_end = match tcp_rx {
            Some(packets) => Some(TcpEndpoint { packets, replies: stack_tx, mtu: self.mtu }),
            None => None,
        };

        let stack = Stack {
            ip_filters: self.ip_filters,
            stack_rx,
            sink_buf: None,
            udp_tx: polled(udp_tx),
            tcp_tx: polled(tcp_tx),
            icmp_tx: polled(icmp_tx),
        };

        Ok((stack, udp_end, tcp_end))
    }
}

/// The polled form of a sender, where there is one.
fn polled(sender: Option<Sender<AnyIpPktFrame>>) -> (port: Option<PollSender<AnyIpPktFrame>>)
    ensures
        port_view(port) == (match sender {
            Some(sender) => Some(fresh_port(sender_channel(sender))),
            None => None,
        }),
{
    match sender {
        Some(sender) => Some(poll_sender(sender)),
        None => None,
    }
}

} // verus!
