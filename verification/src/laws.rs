//! What holds of the stack and of the device over any number of calls.

use crate::channel::{
    channel_limit, receiver_channel, receiver_closed, receiver_taken, sender_channel, valid_limit,
};
use crate::device::DeviceView;
use crate::error::StackError;
use crate::filter::{all_total, may_decide};
use crate::packet::{packet_of, AnyIpPktFrame, IpPacket, IpProtocol};
use crate::poll::Poll;
use crate::stack::{
    built, closed_text, intake_of, invalid_text, octets_of, progress_of, Intake, PortView,
    Progress, StackConfig, StackView, TcpEndpoint, UdpEndpoint,
};
use vstd::prelude::*;

verus! {

/// The packets in a list of answers, the oldest first.
pub open spec fn delivered(answers: Seq<Option<Seq<u8>>>) -> Seq<Seq<u8>>
    decreases answers.len(),
{
    if answers.len() == 0 {
        Seq::empty()
    } else {
        match answers.last() {
            Some(packet) => delivered(answers.drop_last()).push(packet),
            None => delivered(answers.drop_last()),
        }
    }
}

/// Whether the states follow each other by calls of `receive` with these answers.
pub open spec fn receive_run(states: Seq<DeviceView>, answers: Seq<Option<Seq<u8>>>) -> bool {
    &&& states.len() == answers.len() + 1
    &&& forall|i: int|
        0 <= i < answers.len() ==> states[i].receives(states[i + 1], #[trigger] answers[i])
}

/// One call of `receive` hands out at most the packet that it answers with, after all that were
/// handed out before, and keeps a device well formed.
pub proof fn law_receive_step(pre: DeviceView, post: DeviceView, answer: Option<Seq<u8>>)
    requires
        pre.wf(),
        pre.receives(post, answer),
    ensures
        post.wf(),
        post.handed_out() == (match answer {
            Some(packet) => pre.handed_out().push(packet),
            None => pre.handed_out(),
        }),
{
    match (pre.held, answer) {
        (Some(held), Some(packet)) => {
            assert(post.taken =~= pre.taken.drop_last().push(packet));
        },
        (None, None) => {
            if post != pre.restocked(post.stocked) {
                let taken = choose|taken: Seq<u8>|
                    post == (#[trigger] pre.taking(taken, true)).restocked(post.stocked);
                assert(post.taken.drop_last() =~= pre.taken);
            }
        },
        _ => {},
    }
}

/// A packet that is handed out is the one that was held back, or else the next one of the
/// channel, and it is handed out as it is. Where none is handed out, the one that was held back
/// still is, or the next one of the channel was taken and is held back now, or none was taken.
/// Nothing else of the device changes.
pub proof fn law_receive_hands_out_the_next(
    pre: DeviceView,
    post: DeviceView,
    answer: Option<Seq<u8>>,
)
    requires
        pre.receives(post, answer),
    ensures
        post.ingress == pre.ingress,
        post.egress == pre.egress,
        post.mtu == pre.mtu,
        pre.held matches Some(held) ==> post.taken == pre.taken && post.stocked == pre.stocked && (
        match answer {
            Some(packet) => packet == held && post.held is None,
            None => post.held == Some(held),
        }),
        pre.held is None ==> match answer {
            Some(packet) => post.taken == pre.taken.push(packet) && post.held is None,
            None => match post.held {
                Some(held) => post.taken == pre.taken.push(held),
                None => post.taken == pre.taken && !pre.stocked,
            },
        },
{
}

/// A device has a packet for the next call exactly where one is held back or is on its channel.
/// It is well formed where none is held back, or the one that was taken last.
pub proof fn law_device_states(device: DeviceView)
    ensures
        device.supplied() <==> device.held is Some || device.stocked,
        device.wf() <==> (device.held is None || (device.taken.len() > 0 && device.held == Some(
            device.taken[device.taken.len() - 1],
        ))),
        device.held is None ==> device.handed_out() == device.taken,
        device.wf() && device.held is Some ==> device.handed_out().push(device.held->0)
            == device.taken,
{
    if device.wf() && device.held is Some {
        assert(device.handed_out().push(device.held->0) =~= device.taken);
    }
}

/// Where a packet is held back or on the channel, as `has_pending_ingress` reports, a call of
/// `receive` gets hold of one: it hands it out, or holds it back for a later call.
pub proof fn law_pending_ingress_is_received(
    pre: DeviceView,
    post: DeviceView,
    answer: Option<Seq<u8>>,
)
    requires
        pre.receives(post, answer),
        pre.supplied(),
    ensures
        answer is Some || post.held is Some,
{
}

/// A call of `receive` that hands nothing out loses nothing: the packets handed out, both
/// channels and the size of the largest packet are as before, and a packet that there was is
/// still there. While one is held back, such a call changes nothing at all.
pub proof fn law_refused_receive_keeps_all(pre: DeviceView, post: DeviceView)
    requires
        pre.wf(),
        pre.receives(post, None),
    ensures
        post.handed_out() == pre.handed_out(),
        post.ingress == pre.ingress,
        post.egress == pre.egress,
        post.mtu == pre.mtu,
        pre.supplied() ==> post.supplied(),
        pre.held is Some ==> post == pre,
{
    law_receive_step(pre, post, None);
}

/// No packet that comes in is lost, handed out twice or out of order, however often there was
/// no room to answer it: the packets that were taken from the channel are, in order, those that
/// had been handed out before, those that the calls handed out, and the one that is held back.
pub proof fn law_ingress_kept(states: Seq<DeviceView>, answers: Seq<Option<Seq<u8>>>)
    requires
        receive_run(states, answers),
        states[0].wf(),
    ensures
        states.last().wf(),
        states.last().handed_out() == states[0].handed_out() + delivered(answers),
        states.last().taken == states[0].handed_out() + delivered(answers) + (
        match states.last().held {
            Some(packet) => seq![packet],
            None => Seq::empty(),
        }),
    decreases answers.len(),
{
    let last = states.last();
    if answers.len() == 0 {
        assert(last.handed_out() =~= states[0].handed_out() + delivered(answers));
    } else {
        let n = answers.len() - 1;
        let earlier = states.drop_last();
        let told = answers.drop_last();
        assert forall|i: int| 0 <= i < told.len() implies earlier[i].receives(
            earlier[i + 1],
            #[trigger] told[i],
        ) by {
            assert(states[i].receives(states[i + 1], answers[i]));
        }
        law_ingress_kept(earlier, told);
        assert(states[n].receives(states[n + 1], answers[n]));
        law_receive_step(states[n], states[n + 1], answers[n]);
        assert(last.handed_out() =~= states[0].handed_out() + delivered(answers));
    }
    match last.held {
        Some(packet) => {
            assert(last.taken =~= last.handed_out().push(packet));
            assert(last.handed_out().push(packet) =~= last.handed_out() + seq![packet]);
        },
        None => {
            assert(last.taken =~= last.handed_out() + Seq::<Seq<u8>>::empty());
        },
    }
}

/// Without a waiting packet an attempt to pass one on succeeds and changes nothing.
pub proof fn law_nothing_to_pass_on(
    pre: StackView,
    post: StackView,
    answer: Poll<Result<(), StackError>>,
)
    requires
        pre.sends(post, progress_of(answer)),
        pre.waiting is None,
    ensures
        post == pre,
        answer matches Poll::Ready(Ok(_)),
{
}

/// A waiting TCP packet goes to the TCP port and nowhere else, whole and behind all that went
/// there before. Where there is no such port, it is dropped. It still waits, with the stack in
/// line for that port, exactly where the answer is `Pending`, and is lost, with the port found
/// closed, exactly where it is an error.
pub proof fn law_tcp_packet_goes_to_tcp(
    pre: StackView,
    post: StackView,
    packet: Seq<u8>,
    answer: Poll<Result<(), StackError>>,
)
    requires
        pre.sends(post, progress_of(answer)),
        pre.waiting == Some((packet, IpProtocol::Tcp)),
    ensures
        post.udp == pre.udp,
        post.icmp == pre.icmp,
        post.filters == pre.filters,
        post.exit == pre.exit,
        pre.tcp is None ==> post.tcp is None && post.waiting is None,
        pre.tcp is None ==> answer matches Poll::Ready(Ok(_)),
        pre.tcp matches Some(port) ==> match answer {
            Poll::Ready(Ok(_)) => post.waiting is None && !port.closed && post.tcp == Some(
                PortView { sent: port.sent.push(packet), in_line: false, ..port },
            ),
            Poll::Ready(Err(_)) => post.waiting is None && post.tcp == Some(
                PortView { closed: true, in_line: false, ..port },
            ),
            Poll::Pending => post.waiting == Some((packet, IpProtocol::Tcp)) && !port.closed
                && post.tcp == Some(PortView { in_line: true, ..port }),
        },
{
}

/// A waiting UDP packet goes to the UDP port and nowhere else, whole and behind all that went
/// there before. Where there is no such port, it is dropped. It still waits, with the stack in
/// line for that port, exactly where the answer is `Pending`, and is lost, with the port found
/// closed, exactly where it is an error.
pub proof fn law_udp_packet_goes_to_udp(
    pre: StackView,
    post: StackView,
    packet: Seq<u8>,
    answer: Poll<Result<(), StackError>>,
)
    requires
        pre.sends(post, progress_of(answer)),
        pre.waiting == Some((packet, IpProtocol::Udp)),
    ensures
        post.tcp == pre.tcp,
        post.icmp == pre.icmp,
        post.filters == pre.filters,
        post.exit == pre.exit,
        pre.udp is None ==> post.udp is None && post.waiting is None,
        pre.udp is None ==> answer matches Poll::Ready(Ok(_)),
        pre.udp matches Some(port) ==> match answer {
            Poll::Ready(Ok(_)) => post.waiting is None && !port.closed && post.udp == Some(
                PortView { sent: port.sent.push(packet), in_line: false, ..port },
            ),
            Poll::Ready(Err(_)) => post.waiting is None && post.udp == Some(
                PortView { closed: true, in_line: false, ..port },
            ),
            Poll::Pending => post.waiting == Some((packet, IpProtocol::Udp)) && !port.closed
                && post.udp == Some(PortView { in_line: true, ..port }),
        },
{
}

/// A waiting ICMP packet of either version goes to the ICMP port and nowhere else, whole and
/// behind all that went there before. Where there is no such port, it is dropped. It still waits,
/// with the stack in line for that port, exactly where the answer is `Pending`, and is lost, with
/// the port found closed, exactly where it is an error.
pub proof fn law_icmp_packet_goes_to_icmp(
    pre: StackView,
    post: StackView,
    packet: Seq<u8>,
    protocol: IpProtocol,
    answer: Poll<Result<(), StackError>>,
)
    requires
        pre.sends(post, progress_of(answer)),
        pre.waiting == Some((packet, protocol)),
        protocol is Icmp || protocol is Icmpv6,
    ensures
        post.tcp == pre.tcp,
        post.udp == pre.udp,
        post.filters == pre.filters,
        post.exit == pre.exit,
        pre.icmp is None ==> post.icmp is None && post.waiting is None,
        pre.icmp is None ==> answer matches Poll::Ready(Ok(_)),
        pre.icmp matches Some(port) ==> match answer {
            Poll::Ready(Ok(_)) => post.waiting is None && !port.closed && post.icmp == Some(
                PortView { sent: port.sent.push(packet), in_line: false, ..port },
            ),
            Poll::Ready(Err(_)) => post.waiting is None && post.icmp == Some(
                PortView { closed: true, in_line: false, ..port },
            ),
            Poll::Pending => post.waiting == Some((packet, protocol)) && !port.closed && post.icmp
                == Some(PortView { in_line: true, ..port }),
        },
{
}

/// A packet that is offered waits, whole and under its own protocol, exactly where the rules let
/// it pass and it is one of TCP, UDP or ICMP. Nothing else changes, and otherwise nothing at all.
pub proof fn law_offered_packet_waits(
    pre: StackView,
    packet: Seq<u8>,
    protocol: IpProtocol,
    verdict: bool,
)
    ensures
        verdict && !(protocol is Other) ==> pre.offered(packet, protocol, verdict) == (StackView {
            waiting: Some((packet, protocol)),
            ..pre
        }),
        !verdict || protocol is Other ==> pre.offered(packet, protocol, verdict) == pre,
{
}

/// What is told of a packet that was offered is what the rules decided, by its own addresses, and
/// else its own protocol. It is told to wait exactly where it does.
pub proof fn law_intake_tells_the_truth(packet: IpPacket, verdict: bool)
    ensures
        !verdict ==> intake_of(packet, verdict) == Intake::Filtered(
            packet.src_addr,
            packet.dst_addr,
        ),
        verdict && packet.protocol is Other ==> intake_of(packet, verdict) == Intake::Ignored(
            packet.protocol,
        ),
        verdict && !(packet.protocol is Other) ==> intake_of(packet, verdict) == Intake::Waiting(
            packet.protocol,
        ),
{
}

/// The texts of the errors on a closed channel and on octets that are no packet.
pub proof fn law_error_texts()
    ensures
        closed_text() == "channel is closed"@,
        invalid_text() == "invalid IP packet: "@ + "wire::Error"@,
{
}

/// A packet that the stream answers with is the one that was taken from the way out, octet for
/// octet: the packets taken after the call are those taken before and then that one. An answer
/// without a packet takes none. `None` says that the way out has ended, after which no packet is
/// answered; `Pending` says that the stack is in line. Nothing else changes.
pub proof fn law_stream_gives_what_it_takes(
    pre: StackView,
    post: StackView,
    answer: Poll<Option<Result<AnyIpPktFrame, StackError>>>,
)
    requires
        pre.gives(post, octets_of(answer)),
    ensures
        match answer {
            Poll::Ready(Some(Ok(packet))) => {
                &&& post.exit.taken == pre.exit.taken.push(packet@)
                &&& post.exit.taken.last() == packet@
                &&& !pre.exit.ended
                &&& !post.exit.ended
                &&& !post.exit.in_line
            },
            Poll::Ready(_) => {
                &&& post.exit.taken == pre.exit.taken
                &&& post.exit.ended
                &&& !post.exit.in_line
            },
            Poll::Pending => {
                &&& post.exit.taken == pre.exit.taken
                &&& post.exit.ended == pre.exit.ended
                &&& post.exit.in_line
            },
        },
        post.exit.channel == pre.exit.channel,
        post.exit.closed == pre.exit.closed,
        post == (StackView { exit: post.exit, ..pre }),
{
}

/// Closing the way out takes no packet from it and touches nothing else.
pub proof fn law_closing_takes_nothing(pre: StackView)
    ensures
        pre.shut().exit.closed,
        pre.shut().exit.channel == pre.exit.channel,
        pre.shut().exit.taken == pre.exit.taken,
        pre.shut().exit.in_line == pre.exit.in_line,
        pre.shut().exit.ended == pre.exit.ended,
        pre.shut() == (StackView { exit: pre.shut().exit, ..pre }),
{
}

/// A stack can be worked with where only packets of TCP, UDP or ICMP wait and no place is held.
/// It can be offered whatever octets there are where its rules can be asked about all addresses,
/// and in any case what is no packet.
pub proof fn law_stack_states(stack: StackView, item: Seq<u8>)
    ensures
        stack.wf() <==> {
            &&& stack.waiting matches Some((_, protocol)) ==> !(protocol is Other)
            &&& stack.udp matches Some(port) ==> !port.reserved
            &&& stack.tcp matches Some(port) ==> !port.reserved
            &&& stack.icmp matches Some(port) ==> !port.reserved
        },
        all_total(stack.filters) ==> stack.can_judge(item),
        item.len() == 0 || packet_of(item) is None ==> stack.can_judge(item),
        packet_of(item) matches Some(packet) ==> (forall|i: int|
            0 <= i < stack.filters.len() ==> #[trigger] stack.filters[i].accepts(
                packet.src_addr,
                packet.dst_addr,
            )) ==> stack.can_judge(item),
{
}

/// One call on a stack.
pub enum StackStep {
    /// An attempt to pass the waiting packet on, by `poll_ready` or `poll_flush`.
    Poll(Progress),
    /// A packet that `start_send` was given, and what the rules decided on it.
    Offer(Seq<u8>, IpProtocol, bool),
    /// A call of `poll_next` or `poll_close`, or one of `start_send` with no packet to decide on.
    Other,
}

/// Whether the step may lead from `pre` to `post`.
pub open spec fn stack_step(pre: StackView, post: StackView, step: StackStep) -> bool {
    match step {
        StackStep::Poll(progress) => pre.sends(post, progress),
        StackStep::Offer(packet, protocol, verdict) => post == pre.offered(
            packet,
            protocol,
            verdict,
        ),
        StackStep::Other => post == (StackView { exit: post.exit, ..pre }),
    }
}

/// Whether the states follow each other by these steps.
pub open spec fn stack_run(states: Seq<StackView>, steps: Seq<StackStep>) -> bool {
    &&& states.len() == steps.len() + 1
    &&& forall|i: int|
        0 <= i < steps.len() ==> stack_step(states[i], states[i + 1], #[trigger] steps[i])
}

/// From a stack that was just built, whatever is done to it in whatever order, only packets of
/// protocols that the stack carries ever wait, and no place on a channel stays held.
pub proof fn law_always_well_formed(
    config: StackConfig,
    udp: Option<UdpEndpoint>,
    tcp: Option<TcpEndpoint>,
    states: Seq<StackView>,
    steps: Seq<StackStep>,
)
    requires
        built(config, states[0], udp, tcp),
        stack_run(states, steps),
    ensures
        states.last().wf(),
        states.last().waiting matches Some((_, protocol)) ==> protocol is Tcp || protocol is Udp
            || protocol is Icmp || protocol is Icmpv6,
    decreases steps.len(),
{
    if steps.len() > 0 {
        let n = steps.len() - 1;
        let earlier = states.drop_last();
        let done = steps.drop_last();
        assert forall|i: int| 0 <= i < done.len() implies stack_step(
            earlier[i],
            earlier[i + 1],
            #[trigger] done[i],
        ) by {
            assert(stack_step(states[i], states[i + 1], steps[i]));
        }
        law_always_well_formed(config, udp, tcp, earlier, done);
        assert(stack_step(states[n], states[n + 1], steps[n]));
    }
}

/// Whether two protocols go to the same endpoint by the same port.
pub open spec fn same_port(a: IpProtocol, b: IpProtocol) -> bool {
    a == b || ((a is Icmp || a is Icmpv6) && (b is Icmp || b is Icmpv6))
}

/// Whether a packet waits for the port of a protocol.
pub open spec fn waits_for(stack: StackView, protocol: IpProtocol) -> bool {
    stack.waiting matches Some((_, waiting_for)) && same_port(waiting_for, protocol)
}

/// Whether the step takes a packet in for the port of a protocol.
pub open spec fn takes_in(step: StackStep, protocol: IpProtocol) -> bool {
    step matches StackStep::Offer(_, offered_for, true) && offered_for.carried() && same_port(
        offered_for,
        protocol,
    )
}

/// Whether the step is one that a sink is to be put to, and loses no packet of the port of a
/// protocol: a packet is taken in only when none waits, and where an attempt fails it was not
/// with a packet for that port.
pub open spec fn orderly(pre: StackView, step: StackStep, protocol: IpProtocol) -> bool {
    match step {
        StackStep::Poll(progress) => progress is Failed ==> !waits_for(pre, protocol),
        StackStep::Offer(_, offered_for, verdict) => verdict && offered_for.carried()
            ==> pre.waiting is None,
        StackStep::Other => true,
    }
}

/// Whether the states follow each other by these steps, orderly for the port of a protocol.
pub open spec fn orderly_run(
    states: Seq<StackView>,
    steps: Seq<StackStep>,
    protocol: IpProtocol,
) -> bool {
    &&& states.len() == steps.len() + 1
    &&& forall|i: int|
        0 <= i < steps.len() ==> stack_step(states[i], states[i + 1], #[trigger] steps[i])
            && orderly(states[i], steps[i], protocol)
}

/// The packets that have been entrusted to the port of a protocol: those that it has put on its
/// channel, and then the one that waits for it.
pub open spec fn entrusted(stack: StackView, protocol: IpProtocol) -> Seq<Seq<u8>> {
    let sent = match stack.port(protocol) {
        Some(port) => port.sent,
        None => Seq::empty(),
    };
    match stack.waiting {
        Some((packet, waiting_for)) if same_port(waiting_for, protocol) => sent.push(packet),
        _ => sent,
    }
}

/// The packets among the steps that were taken in for the port of a protocol.
pub open spec fn taken_in(steps: Seq<StackStep>, protocol: IpProtocol) -> Seq<Seq<u8>>
    decreases steps.len(),
{
    if steps.len() == 0 {
        Seq::empty()
    } else {
        let before = taken_in(steps.drop_last(), protocol);
        if takes_in(steps.last(), protocol) {
            before.push(steps.last()->Offer_0)
        } else {
            before
        }
    }
}

/// One orderly step entrusts the port of a protocol with the packet that it takes in for that
/// port, if any, and with no other, and takes none away.
pub proof fn law_stack_step(
    pre: StackView,
    post: StackView,
    step: StackStep,
    protocol: IpProtocol,
)
    requires
        stack_step(pre, post, step),
        orderly(pre, step, protocol),
        pre.port(protocol) is Some,
    ensures
        post.port(protocol) is Some,
        post.port(protocol)->0.channel == pre.port(protocol)->0.channel,
        entrusted(post, protocol) == (if takes_in(step, protocol) {
            entrusted(pre, protocol).push(step->Offer_0)
        } else {
            entrusted(pre, protocol)
        }),
{
}

/// Every packet that the stack takes in for a port reaches it once, and the packets of a port
/// keep their order, however often the sink had to wait: what has been put on the channel of
/// the port, together with the packet that still waits for it, is what it had been entrusted
/// with before and what was taken in for it since.
pub proof fn law_packets_kept(
    states: Seq<StackView>,
    steps: Seq<StackStep>,
    protocol: IpProtocol,
)
    requires
        orderly_run(states, steps, protocol),
        states[0].port(protocol) is Some,
    ensures
        states.last().port(protocol) is Some,
        states.last().port(protocol)->0.channel == states[0].port(protocol)->0.channel,
        entrusted(states.last(), protocol) == entrusted(states[0], protocol) + taken_in(
            steps,
            protocol,
        ),
    decreases steps.len(),
{
    if steps.len() == 0 {
        assert(entrusted(states[0], protocol) =~= entrusted(states[0], protocol) + taken_in(
            steps,
            protocol,
        ));
    } else {
        let n = steps.len() - 1;
        let earlier = states.drop_last();
        let done = steps.drop_last();
        assert forall|i: int| 0 <= i < done.len() implies stack_step(
            earlier[i],
            earlier[i + 1],
            #[trigger] done[i],
        ) && orderly(earlier[i], done[i], protocol) by {
            assert(stack_step(states[i], states[i + 1], steps[i]));
        }
        law_packets_kept(earlier, done, protocol);
        assert(stack_step(states[n], states[n + 1], steps[n]));
        law_stack_step(states[n], states[n + 1], steps[n], protocol);
        assert(entrusted(states.last(), protocol) =~= entrusted(states[0], protocol) + taken_in(
            steps,
            protocol,
        ));
    }
}

/// A failed attempt loses the packet that waited and no other.
pub proof fn law_failure_loses_one(pre: StackView, post: StackView, protocol: IpProtocol)
    requires
        pre.sends(post, Progress::Failed),
    ensures
        pre.waiting is Some,
        entrusted(post, protocol) == (if waits_for(pre, protocol) {
            entrusted(pre, protocol).drop_last()
        } else {
            entrusted(pre, protocol)
        }),
{
    if waits_for(pre, protocol) {
        assert(entrusted(pre, protocol).drop_last() =~= entrusted(post, protocol));
    }
}

/// While the sink has to wait, the packet is neither lost nor sent: all that changes is that the
/// stack is in line for a place on the channel of the packet's protocol, which is still open.
pub proof fn law_waiting_keeps_the_packet(pre: StackView, post: StackView)
    requires
        pre.sends(post, Progress::Waiting),
    ensures
        post.waiting == pre.waiting,
        ({
            &&& pre.waiting matches Some((_, protocol))
            &&& pre.port(protocol) matches Some(port)
            &&& !port.closed
            &&& post == pre.with_port(protocol, PortView { in_line: true, ..port })
        }),
{
}

/// Once an attempt is over, for better or worse, the sink has room: a packet that is taken in
/// next takes the place of none.
pub proof fn law_ready_means_room(pre: StackView, post: StackView, progress: Progress)
    requires
        pre.sends(post, progress),
        !(progress is Waiting),
    ensures
        post.waiting is None,
{
}

/// A channel that was found closed stays so: every later packet for it is refused.
pub proof fn law_closed_for_good(
    pre: StackView,
    post: StackView,
    progress: Progress,
    protocol: IpProtocol,
)
    requires
        pre.sends(post, progress),
        pre.port(protocol) matches Some(port) && port.closed,
    ensures
        post.port(protocol) matches Some(port) && port.closed,
        waits_for(pre, protocol) ==> progress is Failed,
{
}

/// A failed attempt marks the channel of the packet's protocol as closed.
pub proof fn law_failure_closes(pre: StackView, post: StackView)
    requires
        pre.sends(post, Progress::Failed),
    ensures
        pre.waiting matches Some((_, protocol)) && (post.port(protocol) matches Some(port)
            && port.closed),
{
}

/// An attempt to pass a packet on touches the port of no other protocol, nor the rules, nor the
/// way out.
pub proof fn law_other_ports_untouched(
    pre: StackView,
    post: StackView,
    progress: Progress,
    protocol: IpProtocol,
)
    requires
        pre.sends(post, progress),
        !waits_for(pre, protocol),
    ensures
        post.port(protocol) == pre.port(protocol),
        post.filters == pre.filters,
        post.exit == pre.exit,
{
}

/// An attempt that ended in waiting leaves the next one all it had: whatever may come of trying
/// again may have come of trying for the first time. So the packet that has waited, however
/// often, is passed on once, as if there had been room at once.
pub proof fn law_waiting_is_repeatable(
    pre: StackView,
    waited: StackView,
    post: StackView,
    progress: Progress,
)
    requires
        pre.sends(waited, Progress::Waiting),
    ensures
        waited.sends(post, progress) <==> pre.sends(post, progress),
{
}

/// Two attempts from one state that make the same progress end in one state: it makes no
/// difference whether `poll_ready` or `poll_flush` was called. The channel has a say only where
/// a packet waits for a port that is open.
pub proof fn law_same_progress_same_state(
    pre: StackView,
    readied: StackView,
    flushed: StackView,
    progress: Progress,
)
    requires
        pre.sends(readied, progress),
        pre.sends(flushed, progress),
    ensures
        readied == flushed,
        match pre.waiting {
            None => progress is Done,
            Some((_, protocol)) => match pre.port(protocol) {
                None => progress is Done,
                Some(port) => port.closed ==> progress is Failed,
            },
        },
{
}

/// Whether the step is one that a sink is to be put to, and loses no packet of a group of
/// protocols: a packet is taken in only when none waits, and where an attempt fails it was not
/// with a packet of the group.
pub open spec fn group_orderly(pre: StackView, step: StackStep, group: Set<IpProtocol>) -> bool {
    match step {
        StackStep::Poll(progress) => progress is Failed ==> waiting_in(pre, group).len() == 0,
        StackStep::Offer(_, protocol, verdict) => verdict && protocol.carried()
            ==> pre.waiting is None,
        StackStep::Other => true,
    }
}

/// Whether the states follow each other by these steps, orderly for a group of protocols.
pub open spec fn group_run(
    states: Seq<StackView>,
    steps: Seq<StackStep>,
    group: Set<IpProtocol>,
) -> bool {
    &&& states.len() == steps.len() + 1
    &&& forall|i: int|
        0 <= i < steps.len() ==> stack_step(states[i], states[i + 1], #[trigger] steps[i])
            && group_orderly(states[i], steps[i], group)
}

/// The packet that waits, where it is of the group.
pub open spec fn waiting_in(stack: StackView, group: Set<IpProtocol>) -> Seq<Seq<u8>> {
    match stack.waiting {
        Some((packet, protocol)) if group.contains(protocol) => seq![packet],
        _ => Seq::empty(),
    }
}

/// The packets of a group of protocols that the steps put on the channels of their ports, in the
/// order of the steps.
pub open spec fn put_on(
    states: Seq<StackView>,
    steps: Seq<StackStep>,
    group: Set<IpProtocol>,
) -> Seq<Seq<u8>>
    decreases steps.len(),
{
    if steps.len() == 0 {
        Seq::empty()
    } else {
        let before = put_on(states.drop_last(), steps.drop_last(), group);
        let pre = states[steps.len() - 1];
        match (steps.last(), pre.waiting) {
            (StackStep::Poll(Progress::Done), Some((packet, protocol))) if group.contains(protocol)
                && pre.port(protocol) is Some => before.push(packet),
            _ => before,
        }
    }
}

/// The packets of a group of protocols that the steps took in, in the order of the steps.
pub open spec fn group_taken_in(steps: Seq<StackStep>, group: Set<IpProtocol>) -> Seq<Seq<u8>>
    decreases steps.len(),
{
    if steps.len() == 0 {
        Seq::empty()
    } else {
        let before = group_taken_in(steps.drop_last(), group);
        match steps.last() {
            StackStep::Offer(packet, protocol, true) if protocol.carried() && group.contains(
                protocol,
            ) => before.push(packet),
            _ => before,
        }
    }
}

/// Whether every protocol of the group has a port, on the same channel in both states.
pub open spec fn ports_kept(pre: StackView, post: StackView, group: Set<IpProtocol>) -> bool {
    forall|protocol: IpProtocol| #[trigger]
        group.contains(protocol) ==> pre.port(protocol) is Some && post.port(protocol) is Some
            && post.port(protocol)->0.channel == pre.port(protocol)->0.channel
}

/// The packets of any group of protocols that have ports are put on their channels in the order
/// in which they were taken in, across the ports of the group, none lost and none twice: first
/// the one that waited at the start; the last may still wait.
pub proof fn law_group_in_order(
    states: Seq<StackView>,
    steps: Seq<StackStep>,
    group: Set<IpProtocol>,
)
    requires
        group_run(states, steps, group),
        ports_kept(states[0], states[0], group),
    ensures
        ports_kept(states[0], states.last(), group),
        put_on(states, steps, group) + waiting_in(states.last(), group) == waiting_in(
            states[0],
            group,
        ) + group_taken_in(steps, group),
    decreases steps.len(),
{
    let waited = waiting_in(states[0], group);
    if steps.len() == 0 {
        assert(put_on(states, steps, group) + waited =~= waited + group_taken_in(steps, group));
    } else {
        let n = steps.len() - 1;
        let earlier = states.drop_last();
        let done = steps.drop_last();
        assert forall|i: int| 0 <= i < done.len() implies stack_step(
            earlier[i],
            earlier[i + 1],
            #[trigger] done[i],
        ) && group_orderly(earlier[i], done[i], group) by {
            assert(stack_step(states[i], states[i + 1], steps[i]));
        }
        law_group_in_order(earlier, done, group);
        let pre = states[n];
        let post = states[n + 1];
        assert(stack_step(pre, post, steps[n]) && group_orderly(pre, steps[n], group));
        assert(ports_kept(pre, post, group)) by {
            assert forall|protocol: IpProtocol| #[trigger] group.contains(protocol) implies ({
                &&& pre.port(protocol) is Some
                &&& post.port(protocol) is Some
                &&& post.port(protocol)->0.channel == pre.port(protocol)->0.channel
            }) by {
                assert(earlier.last() == pre);
            }
        }
        assert(put_on(states, steps, group) + waiting_in(post, group) =~= waited + group_taken_in(
            steps,
            group,
        ));
    }
}

/// The protocols whose packets go to the TCP endpoint.
pub open spec fn tcp_side(config: StackConfig) -> Set<IpProtocol> {
    Set::new(
        |protocol: IpProtocol|
            protocol is Tcp || (config.enable_icmp && (protocol is Icmp || protocol is Icmpv6)),
    )
}

/// The protocols whose packets go to the UDP endpoint.
pub open spec fn udp_side() -> Set<IpProtocol> {
    Set::new(|protocol: IpProtocol| protocol is Udp)
}

/// From a stack that was just built, all packets for the TCP endpoint, those of TCP and those of
/// ICMP together, are put on the one channel of that endpoint in the order in which they were
/// taken in, none lost and none twice; the last may still wait.
pub proof fn law_tcp_endpoint_in_order(
    config: StackConfig,
    udp: Option<UdpEndpoint>,
    tcp: TcpEndpoint,
    states: Seq<StackView>,
    steps: Seq<StackStep>,
)
    requires
        built(config, states[0], udp, Some(tcp)),
        group_run(states, steps, tcp_side(config)),
    ensures
        put_on(states, steps, tcp_side(config)) + waiting_in(states.last(), tcp_side(config))
            == group_taken_in(steps, tcp_side(config)),
        forall|protocol: IpProtocol| #[trigger]
            tcp_side(config).contains(protocol) ==> (states.last().port(protocol) matches Some(port)
                && port.channel == receiver_channel(tcp.packets)),
{
    law_group_in_order(states, steps, tcp_side(config));
    assert(waiting_in(states[0], tcp_side(config)) + group_taken_in(steps, tcp_side(config))
        =~= group_taken_in(steps, tcp_side(config)));
}

/// From a stack that was just built, all packets for the UDP endpoint are put on the channel of
/// that endpoint in the order in which they were taken in, none lost and none twice; the last
/// may still wait.
pub proof fn law_udp_endpoint_in_order(
    config: StackConfig,
    udp: UdpEndpoint,
    tcp: Option<TcpEndpoint>,
    states: Seq<StackView>,
    steps: Seq<StackStep>,
)
    requires
        built(config, states[0], Some(udp), tcp),
        group_run(states, steps, udp_side()),
    ensures
        put_on(states, steps, udp_side()) + waiting_in(states.last(), udp_side())
            == group_taken_in(steps, udp_side()),
        states.last().udp matches Some(port) && port.channel == receiver_channel(udp.packets),
{
    law_group_in_order(states, steps, udp_side());
    assert(udp_side().contains(IpProtocol::Udp));
    assert(waiting_in(states[0], udp_side()) + group_taken_in(steps, udp_side())
        =~= group_taken_in(steps, udp_side()));
}

/// One call on the way out of a stack.
pub enum ExitStep {
    /// A call of `poll_next` with this answer.
    Next(Poll<Option<Seq<u8>>>),
    /// A call of `poll_close`.
    Close,
}

/// Whether the states follow each other by these steps.
pub open spec fn exit_run(states: Seq<StackView>, steps: Seq<ExitStep>) -> bool {
    &&& states.len() == steps.len() + 1
    &&& forall|i: int|
        0 <= i < steps.len() ==> match #[trigger] steps[i] {
            ExitStep::Next(answer) => states[i].gives(states[i + 1], answer),
            ExitStep::Close => states[i + 1] == states[i].shut(),
        }
}

/// The packets that the steps gave out, the oldest first.
pub open spec fn given_out(steps: Seq<ExitStep>) -> Seq<Seq<u8>>
    decreases steps.len(),
{
    if steps.len() == 0 {
        Seq::empty()
    } else {
        let before = given_out(steps.drop_last());
        match steps.last() {
            ExitStep::Next(Poll::Ready(Some(packet))) => before.push(packet),
            _ => before,
        }
    }
}

/// Whether the way out is closed before or by one of the steps.
pub open spec fn closes(state: StackView, steps: Seq<ExitStep>) -> bool {
    state.exit.closed || steps.contains(ExitStep::Close)
}

/// The stream gives out each packet that it takes from the way out once and in order, whether
/// the way out is closed in between or not. Closing takes nothing and gives nothing out, and
/// lasts. Neither touches the sink or the rules.
pub proof fn law_stream_in_order(states: Seq<StackView>, steps: Seq<ExitStep>)
    requires
        exit_run(states, steps),
    ensures
        states.last().exit.taken == states[0].exit.taken + given_out(steps),
        states.last().exit.closed == closes(states[0], steps),
        states[0].exit.ended ==> states.last().exit.ended,
        states.last() == (StackView { exit: states.last().exit, ..states[0] }),
    decreases steps.len(),
{
    if steps.len() == 0 {
        assert(states[0].exit.taken =~= states[0].exit.taken + given_out(steps));
    } else {
        let n = steps.len() - 1;
        let earlier = states.drop_last();
        let done = steps.drop_last();
        assert forall|i: int| 0 <= i < done.len() implies match #[trigger] done[i] {
            ExitStep::Next(answer) => earlier[i].gives(earlier[i + 1], answer),
            ExitStep::Close => earlier[i + 1] == earlier[i].shut(),
        } by {
            assert(steps[i] == done[i]);
        }
        law_stream_in_order(earlier, done);
        assert(steps[n] == steps.last());
        assert(steps.contains(ExitStep::Close) <==> done.contains(ExitStep::Close) || steps.last()
            == ExitStep::Close) by {
            if steps.contains(ExitStep::Close) {
                let k = choose|k: int| 0 <= k < steps.len() && steps[k] == ExitStep::Close;
                if k < n {
                    assert(done[k] == ExitStep::Close);
                }
            }
            if done.contains(ExitStep::Close) {
                let k = choose|k: int| 0 <= k < done.len() && done[k] == ExitStep::Close;
                assert(steps[k] == ExitStep::Close);
            }
        }
        assert(states.last().exit.taken =~= states[0].exit.taken + given_out(steps));
    }
}

/// The end of the stream is final: after `poll_next` has answered `None`, no call gives a packet
/// out.
pub proof fn law_stream_end_is_final(
    pre: StackView,
    states: Seq<StackView>,
    steps: Seq<ExitStep>,
)
    requires
        pre.gives(states[0], Poll::Ready(None)),
        exit_run(states, steps),
    ensures
        given_out(steps) == Seq::<Seq<u8>>::empty(),
        states.last().exit.ended,
        states.last().exit.taken == pre.exit.taken,
    decreases steps.len(),
{
    if steps.len() > 0 {
        let n = steps.len() - 1;
        let earlier = states.drop_last();
        let done = steps.drop_last();
        assert forall|i: int| 0 <= i < done.len() implies match #[trigger] done[i] {
            ExitStep::Next(answer) => earlier[i].gives(earlier[i + 1], answer),
            ExitStep::Close => earlier[i + 1] == earlier[i].shut(),
        } by {
            assert(steps[i] == done[i]);
        }
        law_stream_end_is_final(pre, earlier, done);
        assert(steps[n] == steps.last());
    }
}

/// The rules of a stack that was just built are the builder's rules, in number and order, whatever
/// else it was built with.
pub proof fn law_built_keeps_the_rules(
    config: StackConfig,
    stack: StackView,
    udp: Option<UdpEndpoint>,
    tcp: Option<TcpEndpoint>,
)
    requires
        built(config, stack, udp, tcp),
    ensures
        stack.filters.len() == config.ip_filters.len(),
        forall|i: int|
            0 <= i < config.ip_filters.len() ==> #[trigger] stack.filters[i]
                == config.ip_filters[i],
{
}

/// A stack that was just built has a way to the UDP endpoint exactly where UDP is enabled, one to
/// the TCP endpoint exactly where TCP is, and one for ICMP exactly where ICMP and TCP are. Each
/// way is new, holds as many packets as was asked for, and leads to the endpoint's own end; the
/// way back of each endpoint is the stack's way out, which is new and holds as many packets as
/// was asked for. The TCP endpoint is told the size of the largest packet.
pub proof fn law_built_as_asked(
    config: StackConfig,
    stack: StackView,
    udp: Option<UdpEndpoint>,
    tcp: Option<TcpEndpoint>,
)
    requires
        built(config, stack, udp, tcp),
    ensures
        udp is Some <==> config.enable_udp,
        tcp is Some <==> config.enable_tcp,
        stack.udp is Some <==> config.enable_udp,
        stack.tcp is Some <==> config.enable_tcp,
        stack.icmp is Some <==> config.enable_icmp && config.enable_tcp,
        stack.waiting is None,
        channel_limit(stack.exit.channel) == config.stack_buffer_size,
        stack.exit.taken.len() == 0,
        !stack.exit.closed && !stack.exit.in_line && !stack.exit.ended,
        udp matches Some(end) ==> {
            &&& stack.udp->0.channel == receiver_channel(end.packets)
            &&& stack.udp->0.sent.len() == 0
            &&& !stack.udp->0.reserved && !stack.udp->0.in_line && !stack.udp->0.closed
            &&& channel_limit(stack.udp->0.channel) == config.udp_buffer_size
            &&& receiver_taken(end.packets).len() == 0
            &&& !receiver_closed(end.packets)
            &&& sender_channel(end.replies) == stack.exit.channel
        },
        tcp matches Some(end) ==> {
            &&& stack.tcp->0.channel == receiver_channel(end.packets)
            &&& stack.tcp->0.sent.len() == 0
            &&& !stack.tcp->0.reserved && !stack.tcp->0.in_line && !stack.tcp->0.closed
            &&& channel_limit(stack.tcp->0.channel) == config.tcp_buffer_size
            &&& receiver_taken(end.packets).len() == 0
            &&& !receiver_closed(end.packets)
            &&& sender_channel(end.replies) == stack.exit.channel
            &&& end.mtu == config.mtu
        },
        stack.icmp matches Some(port) ==> {
            &&& port.channel == stack.tcp->0.channel
            &&& port.sent.len() == 0
            &&& !port.reserved && !port.in_line && !port.closed
        },
{
}

/// The sizes of a builder are valid exactly where every channel that it asks for is to hold at
/// least one packet and at most an eighth of the `usize` range; the size of a channel that it does
/// not ask for does not matter. ICMP lacks TCP exactly where it is enabled and TCP is not.
pub proof fn law_settings(config: StackConfig, limit: usize)
    ensures
        valid_limit(limit) <==> 1 <= limit && limit <= usize::MAX / 8,
        config.sizes_valid() <==> {
            &&& 1 <= config.stack_buffer_size <= usize::MAX / 8
            &&& !config.enable_udp || 1 <= config.udp_buffer_size <= usize::MAX / 8
            &&& !config.enable_tcp || 1 <= config.tcp_buffer_size <= usize::MAX / 8
        },
        config.icmp_without_tcp() <==> config.enable_icmp && !config.enable_tcp,
{
}

/// Whether an offer is one that the stack may have decided so: what was offered is a packet, of
/// the protocol that is told, and the verdict is one that the rules may come to on its addresses.
pub open spec fn decided(pre: StackView, step: StackStep) -> bool {
    step matches StackStep::Offer(packet, protocol, verdict) ==> {
        &&& packet_of(packet) matches Some(found)
        &&& found.protocol == protocol
        &&& may_decide(pre.filters, found.src_addr, found.dst_addr, verdict)
    }
}

/// From a stack that was just built, whatever is done to it in whatever order, its rules stay the
/// builder's, and only what they may let pass ever waits or is put on a channel. A packet of TCP
/// is put on the TCP port only, one of UDP on the UDP port only, one of ICMP on the ICMP port
/// only.
pub proof fn law_only_what_the_rules_let_pass(
    config: StackConfig,
    udp: Option<UdpEndpoint>,
    tcp: Option<TcpEndpoint>,
    states: Seq<StackView>,
    steps: Seq<StackStep>,
    packet: Seq<u8>,
)
    requires
        built(config, states[0], udp, tcp),
        stack_run(states, steps),
        forall|i: int| 0 <= i < steps.len() ==> decided(states[i], #[trigger] steps[i]),
    ensures
        states.last().filters == config.ip_filters,
        states.last().waiting matches Some((waits, protocol)) ==> waits == packet ==> {
            &&& packet_of(packet) matches Some(found)
            &&& found.protocol == protocol
            &&& may_decide(config.ip_filters, found.src_addr, found.dst_addr, true)
        },
        states.last().udp matches Some(port) ==> port.sent.contains(packet) ==> {
            &&& packet_of(packet) matches Some(found)
            &&& found.protocol is Udp
            &&& may_decide(config.ip_filters, found.src_addr, found.dst_addr, true)
        },
        states.last().tcp matches Some(port) ==> port.sent.contains(packet) ==> {
            &&& packet_of(packet) matches Some(found)
            &&& found.protocol is Tcp
            &&& may_decide(config.ip_filters, found.src_addr, found.dst_addr, true)
        },
        states.last().icmp matches Some(port) ==> port.sent.contains(packet) ==> {
            &&& packet_of(packet) matches Some(found)
            &&& found.protocol is Icmp || found.protocol is Icmpv6
            &&& may_decide(config.ip_filters, found.src_addr, found.dst_addr, true)
        },
    decreases steps.len(),
{
    if steps.len() > 0 {
        let n = steps.len() - 1;
        let earlier = states.drop_last();
        let done = steps.drop_last();
        assert forall|i: int| 0 <= i < done.len() implies stack_step(
            earlier[i],
            earlier[i + 1],
            #[trigger] done[i],
        ) && decided(earlier[i], done[i]) by {
            assert(stack_step(states[i], states[i + 1], steps[i]));
            assert(decided(states[i], steps[i]));
        }
        law_only_what_the_rules_let_pass(config, udp, tcp, earlier, done, packet);
        let pre = states[n];
        let post = states[n + 1];
        assert(stack_step(pre, post, steps[n]));
        assert(decided(pre, steps[n]));
        if let StackStep::Poll(Progress::Done) = steps[n] {
            if let Some((waits, protocol)) = pre.waiting {
                if let Some(port) = pre.port(protocol) {
                    let sent = port.sent.push(waits);
                    assert(sent.contains(packet) ==> port.sent.contains(packet) || waits == packet)
                        by {
                        if sent.contains(packet) {
                            let k = choose|k: int| 0 <= k < sent.len() && sent[k] == packet;
                            if k < port.sent.len() {
                                assert(port.sent[k] == packet);
                            }
                        }
                    }
                }
            }
        }
    }
}

/// A packet that the builder's rules can only refuse never waits in a stack that was built with
/// them, and is never put on a channel to an endpoint, whatever is done to the stack in whatever
/// order.
pub proof fn law_refused_packet_stays_out(
    config: StackConfig,
    udp: Option<UdpEndpoint>,
    tcp: Option<TcpEndpoint>,
    states: Seq<StackView>,
    steps: Seq<StackStep>,
    packet: Seq<u8>,
)
    requires
        built(config, states[0], udp, tcp),
        stack_run(states, steps),
        forall|i: int| 0 <= i < steps.len() ==> decided(states[i], #[trigger] steps[i]),
        packet_of(packet) matches Some(found) ==> !may_decide(
            config.ip_filters,
            found.src_addr,
            found.dst_addr,
            true,
        ),
    ensures
        states.last().waiting matches Some((waits, _)) ==> waits != packet,
        states.last().udp matches Some(port) ==> !port.sent.contains(packet),
        states.last().tcp matches Some(port) ==> !port.sent.contains(packet),
        states.last().icmp matches Some(port) ==> !port.sent.contains(packet),
{
    law_only_what_the_rules_let_pass(config, udp, tcp, states, steps, packet);
}

/// ICMP has no channel of its own: where it is enabled, its packets go where those of TCP go.
pub proof fn law_icmp_rides_on_tcp(
    config: StackConfig,
    stack: StackView,
    udp: Option<UdpEndpoint>,
    tcp: Option<TcpEndpoint>,
)
    requires
        built(config, stack, udp, tcp),
        config.enable_icmp,
        config.enable_tcp,
    ensures
        stack.icmp is Some,
        stack.tcp is Some,
        stack.icmp->0.channel == stack.tcp->0.channel,
        channel_limit(stack.icmp->0.channel) == config.tcp_buffer_size,
{
}

/// A stack that was just built has sent nothing, holds no packet back and has given none out.
pub proof fn law_built_is_fresh(
    config: StackConfig,
    stack: StackView,
    udp: Option<UdpEndpoint>,
    tcp: Option<TcpEndpoint>,
    protocol: IpProtocol,
)
    requires
        built(config, stack, udp, tcp),
    ensures
        entrusted(stack, protocol) == Seq::<Seq<u8>>::empty(),
        stack.waiting is None,
        stack.exit.taken == Seq::<Seq<u8>>::empty(),
{
}

} // verus!
