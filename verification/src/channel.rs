//! The packet channels of tokio and tokio-util, and what the stack relies on of them.
//!
//! The other end of a channel may live in another task, so how full a channel is and whether it
//! is still open can change between any two calls. Of either, only what was found at some moment
//! is claimed here. What else is claimed is what only the calls on a handle itself can change:
//! the channel that it belongs to, the packets that have gone through it, and the state that its
//! own calls leave it in.

use crate::poll::Poll;
use tokio::sync::mpsc::{Permit, Receiver, Sender, UnboundedReceiver, UnboundedSender};
use tokio_util::sync::PollSender;
use std::task::Context;
use vstd::prelude::*;

verus! {

#[verifier::external_type_specification]
#[verifier::external_body]
#[verifier::reject_recursive_types(T)]
pub struct ExSender<T>(Sender<T>);

#[verifier::external_type_specification]
#[verifier::external_body]
#[verifier::reject_recursive_types(T)]
pub struct ExReceiver<T>(Receiver<T>);

#[verifier::external_type_specification]
#[verifier::external_body]
#[verifier::reject_recursive_types(T)]
pub struct ExPermit<'a, T>(Permit<'a, T>);

#[verifier::external_type_specification]
#[verifier::external_body]
#[verifier::reject_recursive_types(T)]
pub struct ExUnboundedSender<T>(UnboundedSender<T>);

#[verifier::external_type_specification]
#[verifier::external_body]
#[verifier::reject_recursive_types(T)]
pub struct ExUnboundedReceiver<T>(UnboundedReceiver<T>);

#[verifier::external_type_specification]
#[verifier::external_body]
#[verifier::reject_recursive_types(T)]
pub struct ExPollSender<T>(PollSender<T>);

#[verifier::external_type_specification]
#[verifier::external_body]
pub struct ExContext<'a>(Context<'a>);

/// The task that the waker of a context wakes. Only whether two tasks are the same has a meaning.
pub uninterp spec fn context_task(cx: Context<'_>) -> int;

/// The channel that a sender puts its packets on. Only whether two channels are the same has a
/// meaning.
pub uninterp spec fn sender_channel(sender: Sender<Vec<u8>>) -> int;

/// Whether the sender's channel had this many places left at some moment after this many requests
/// for a place and before the next one was over.
pub uninterp spec fn sender_found_with(
    sender: Sender<Vec<u8>>,
    requests: nat,
    places: usize,
) -> bool;

/// Whether the sender's channel was full or closed at some moment after this many requests for a
/// place and before the next one was over.
pub uninterp spec fn sender_refused(sender: Sender<Vec<u8>>, requests: nat) -> bool;

/// The number of packets that a bounded channel was made to hold.
pub uninterp spec fn channel_limit(channel: int) -> nat;

/// The channel that a receiver takes its packets from.
pub uninterp spec fn receiver_channel(receiver: Receiver<Vec<u8>>) -> int;

/// The packets that a receiver has taken from its channel so far, the oldest first.
pub uninterp spec fn receiver_taken(receiver: Receiver<Vec<u8>>) -> Seq<Seq<u8>>;

/// Whether a receiver has closed its channel.
pub uninterp spec fn receiver_closed(receiver: Receiver<Vec<u8>>) -> bool;

/// Whether a receiver had to wait when it was last asked for a packet.
pub uninterp spec fn receiver_in_line(receiver: Receiver<Vec<u8>>) -> bool;

/// The task that is to be woken for a receiver that had to wait.
pub uninterp spec fn receiver_task(receiver: Receiver<Vec<u8>>) -> int;

/// Whether a receiver has found its channel closed and drained. No packet can come after that.
pub uninterp spec fn receiver_ended(receiver: Receiver<Vec<u8>>) -> bool;

/// The channel that a polled sender puts its packets on.
pub uninterp spec fn poll_sender_channel(sender: PollSender<Vec<u8>>) -> int;

/// The packets that a polled sender has put on its channel so far, the oldest first.
pub uninterp spec fn poll_sender_sent(sender: PollSender<Vec<u8>>) -> Seq<Seq<u8>>;

/// Whether a polled sender holds a place on its channel for one packet.
pub uninterp spec fn poll_sender_reserved(sender: PollSender<Vec<u8>>) -> bool;

/// Whether a polled sender is in line for a place on its channel.
pub uninterp spec fn poll_sender_in_line(sender: PollSender<Vec<u8>>) -> bool;

/// The task that is to be woken for a polled sender that is in line.
pub uninterp spec fn poll_sender_task(sender: PollSender<Vec<u8>>) -> int;

/// Whether a polled sender has been closed, or has found its channel closed.
pub uninterp spec fn poll_sender_closed(sender: PollSender<Vec<u8>>) -> bool;

/// The channel that a permit holds a place on.
pub uninterp spec fn permit_channel(permit: Permit<'_, Vec<u8>>) -> int;

/// The channel that an unbounded sender puts its packets on.
pub uninterp spec fn unbounded_sender_channel(sender: UnboundedSender<Vec<u8>>) -> int;

/// The channel that an unbounded receiver takes its packets from.
pub uninterp spec fn unbounded_receiver_channel(receiver: UnboundedReceiver<Vec<u8>>) -> int;

/// The packets that an unbounded receiver has taken from its channel so far, the oldest first.
pub uninterp spec fn unbounded_receiver_taken(receiver: UnboundedReceiver<Vec<u8>>) -> Seq<
    Seq<u8>,
>;

/// Whether the next packet of an unbounded receiver is on its channel. One that has been seen
/// there stays until this receiver takes it; one that has not been seen may be there or not.
pub uninterp spec fn unbounded_receiver_stocked(receiver: UnboundedReceiver<Vec<u8>>) -> bool;

/// Whether, at some moment while the unbounded receiver was as it is, its channel held no packet.
pub uninterp spec fn unbounded_receiver_found_empty(receiver: UnboundedReceiver<Vec<u8>>) -> bool;

/// Whether a bounded channel can be made to hold `limit` packets.
pub open spec fn valid_limit(limit: usize) -> bool {
    0 < limit <= usize::MAX / 8
}

/// What came of asking for a place on a channel.
#[derive(Clone, Copy, Debug, PartialEq, Eq)]
pub enum Reservation {
    /// The place is there.
    Granted,
    /// The channel is closed for good.
    Closed,
    /// The channel is full; the task that asked is to be woken when it is worth asking again.
    Waiting,
}

/// A sender whose requests for a place are counted, in the proofs alone.
pub struct Requester {
    sender: Sender<Vec<u8>>,
    requests: Ghost<nat>,
}

impl Requester {
    /// The sender itself.
    pub closed spec fn sender(self) -> Sender<Vec<u8>> {
        self.sender
    }

    /// How often it has been asked for a place.
    pub closed spec fn requests(self) -> nat {
        self.requests@
    }

    /// The sender, to be asked for places from now on.
    pub(crate) fn new(sender: Sender<Vec<u8>>) -> (requester: Self)
        ensures
            requester.sender() == sender,
            requester.requests() == 0,
    {
        Requester { sender, requests: Ghost(0) }
    }
}

/// The proof that a packet was put on a channel.
pub struct Sent {
    channel: Ghost<int>,
    packet: Ghost<Seq<u8>>,
}

impl Sent {
    /// The channel that the packet was put on.
    pub closed spec fn channel(self) -> int {
        self.channel@
    }

    /// The octets of the packet.
    pub closed spec fn packet(self) -> Seq<u8> {
        self.packet@
    }
}

/// `tokio::sync::mpsc::channel`: a new channel that holds up to `limit` packets, and its two
/// ends. It panics on a limit of zero and on one above an eighth of the `usize` range. The
/// receiver has not been asked for a packet yet and has not closed the channel.
#[verifier::external_body]
pub(crate) fn open_channel(limit: usize) -> (ends: (Sender<Vec<u8>>, Receiver<Vec<u8>>))
    requires
        valid_limit(limit),
    ensures
        sender_channel(ends.0) == receiver_channel(ends.1),
        channel_limit(sender_channel(ends.0)) == limit,
        receiver_taken(ends.1) == Seq::<Seq<u8>>::empty(),
        !receiver_closed(ends.1),
        !receiver_in_line(ends.1),
        !receiver_ended(ends.1),
{
    tokio::sync::mpsc::channel(limit)
}

/// `Sender::clone`: one more sender on the same channel. The sender stays on its channel. As the
/// copy can take places on it too from now on, the sender counts as changed.
#[verifier::external_body]
pub(crate) fn clone_sender(sender: &mut Sender<Vec<u8>>) -> (copy: Sender<Vec<u8>>)
    ensures
        sender_channel(copy) == sender_channel(*old(sender)),
        sender_channel(*final(sender)) == sender_channel(*old(sender)),
{
    sender.clone()
}

/// `PollSender::new`: a polled sender on the channel of `sender`. It is open, has sent nothing
/// and neither holds a place on the channel nor is in line for one.
#[verifier::external_body]
pub(crate) fn poll_sender(sender: Sender<Vec<u8>>) -> (polled: PollSender<Vec<u8>>)
    ensures
        poll_sender_channel(polled) == sender_channel(sender),
        poll_sender_sent(polled) == Seq::<Seq<u8>>::empty(),
        !poll_sender_reserved(polled),
        !poll_sender_in_line(polled),
        !poll_sender_closed(polled),
{
    PollSender::new(sender)
}

/// `PollSender::poll_reserve`: asks for a place on the channel for one packet.
///
/// A place that is already held is reported again. A sender that is closed and holds no place
/// reports so on every call. Otherwise the channel decides: the sender then holds a place, or
/// has found the channel closed, or is in line for the task of the context, whichever task asked
/// before. No call puts a packet on the channel. That the task is woken in the end is not stated.
#[verifier::external_body]
pub(crate) fn poll_reserve(sender: &mut PollSender<Vec<u8>>, cx: &mut Context<'_>) -> (outcome:
    Reservation)
    ensures
        poll_sender_channel(*final(sender)) == poll_sender_channel(*old(sender)),
        poll_sender_sent(*final(sender)) == poll_sender_sent(*old(sender)),
        poll_sender_reserved(*final(sender)) == (outcome is Granted),
        poll_sender_in_line(*final(sender)) == (outcome is Waiting),
        outcome is Waiting ==> poll_sender_task(*final(sender)) == context_task(*old(cx)),
        context_task(*final(cx)) == context_task(*old(cx)),
        poll_sender_closed(*final(sender)) == (poll_sender_closed(*old(sender))
            || outcome is Closed),
        poll_sender_reserved(*old(sender)) ==> outcome is Granted,
        poll_sender_closed(*old(sender)) && !poll_sender_reserved(*old(sender))
            ==> outcome is Closed,
{
    match sender.poll_reserve(cx) {
        std::task::Poll::Ready(Ok(())) => Reservation::Granted,
        std::task::Poll::Ready(Err(_)) => Reservation::Closed,
        std::task::Poll::Pending => Reservation::Waiting,
    }
}

/// `PollSender::send_item`: puts a packet on the place that the sender holds, and gives the
/// place up. It panics where no place is held and the sender is open. On a place that is held
/// it succeeds, even where the channel was closed since.
#[verifier::external_body]
pub(crate) fn send_item(sender: &mut PollSender<Vec<u8>>, packet: Vec<u8>) -> (accepted: bool)
    requires
        poll_sender_reserved(*old(sender)),
    ensures
        accepted,
        poll_sender_channel(*final(sender)) == poll_sender_channel(*old(sender)),
        poll_sender_sent(*final(sender)) == poll_sender_sent(*old(sender)).push(packet@),
        !poll_sender_reserved(*final(sender)),
        !poll_sender_in_line(*final(sender)),
        poll_sender_closed(*final(sender)) == poll_sender_closed(*old(sender)),
{
    sender.send_item(packet).is_ok()
}

/// `Receiver::poll_recv`: takes the next packet from the channel where there is one. `None`
/// says that the channel is closed and drained, and no packet comes after that. `Pending` puts
/// the receiver in line for the task of the context, whichever task asked before. That the task
/// is woken in the end is not stated, nor which of the three comes, which the senders and the
/// runtime decide.
#[verifier::external_body]
pub(crate) fn poll_recv(receiver: &mut Receiver<Vec<u8>>, cx: &mut Context<'_>) -> (outcome: Poll<
    Option<Vec<u8>>,
>)
    ensures
        receiver_channel(*final(receiver)) == receiver_channel(*old(receiver)),
        receiver_closed(*final(receiver)) == receiver_closed(*old(receiver)),
        receiver_taken(*final(receiver)) == (match outcome {
            Poll::Ready(Some(packet)) => receiver_taken(*old(receiver)).push(packet@),
            _ => receiver_taken(*old(receiver)),
        }),
        receiver_in_line(*final(receiver)) == (outcome is Pending),
        outcome is Pending ==> receiver_task(*final(receiver)) == context_task(*old(cx)),
        context_task(*final(cx)) == context_task(*old(cx)),
        receiver_ended(*final(receiver)) == (receiver_ended(*old(receiver)) || outcome
            == Poll::<Option<Vec<u8>>>::Ready(None)),
        receiver_ended(*old(receiver)) ==> !(outcome matches Poll::Ready(Some(_))),
{
    match receiver.poll_recv(cx) {
        std::task::Poll::Ready(packet) => Poll::Ready(packet),
        std::task::Poll::Pending => Poll::Pending,
    }
}

/// `Receiver::close`: closes the channel to further packets. It asks for none.
#[verifier::external_body]
pub(crate) fn close(receiver: &mut Receiver<Vec<u8>>)
    ensures
        receiver_channel(*final(receiver)) == receiver_channel(*old(receiver)),
        receiver_taken(*final(receiver)) == receiver_taken(*old(receiver)),
        receiver_closed(*final(receiver)),
        receiver_in_line(*final(receiver)) == receiver_in_line(*old(receiver)),
        receiver_ended(*final(receiver)) == receiver_ended(*old(receiver)),
{
    receiver.close()
}

/// `tokio::sync::mpsc::unbounded_channel`: a new channel without a limit, and its two ends. The
/// receiver has taken nothing yet.
#[verifier::external_body]
pub(crate) fn open_unbounded() -> (ends: (UnboundedSender<Vec<u8>>, UnboundedReceiver<Vec<u8>>))
    ensures
        unbounded_sender_channel(ends.0) == unbounded_receiver_channel(ends.1),
        unbounded_receiver_taken(ends.1) == Seq::<Seq<u8>>::empty(),
{
    tokio::sync::mpsc::unbounded_channel()
}

/// `UnboundedReceiver::try_recv`: takes the next packet from the channel where there is one. A
/// packet that was seen there before is still there to be taken, as no one else can take it.
/// Where none is taken, the channel was found empty.
#[verifier::external_body]
pub(crate) fn try_recv(receiver: &mut UnboundedReceiver<Vec<u8>>) -> (packet: Option<Vec<u8>>)
    ensures
        unbounded_receiver_channel(*final(receiver)) == unbounded_receiver_channel(*old(receiver)),
        unbounded_receiver_taken(*final(receiver)) == (match packet {
            Some(packet) => unbounded_receiver_taken(*old(receiver)).push(packet@),
            None => unbounded_receiver_taken(*old(receiver)),
        }),
        unbounded_receiver_stocked(*old(receiver)) ==> packet is Some,
        packet is None ==> unbounded_receiver_found_empty(*old(receiver)),
{
    receiver.try_recv().ok()
}

/// `UnboundedReceiver::is_empty`: whether no packet is on the channel at the moment of the
/// call. A packet that is there stays there for this receiver. Where there is none, the senders
/// may put one there at any time, so what is claimed is that the channel was found empty.
#[verifier::external_body]
pub(crate) fn is_empty(receiver: &UnboundedReceiver<Vec<u8>>) -> (empty: bool)
    ensures
        !empty ==> unbounded_receiver_stocked(*receiver),
        empty ==> unbounded_receiver_found_empty(*receiver),
{
    receiver.is_empty()
}

/// `Sender::try_reserve`: asks for a place on the sender's channel for one packet. It is given
/// where there is one at the moment of the call and the channel is open. Otherwise the channel
/// was found full or closed. Either way this is one more request. While the place is held, no
/// other can be asked for.
#[verifier::external_body]
pub(crate) fn try_reserve<'a>(requester: &'a mut Requester) -> (permit: Option<
    Permit<'a, Vec<u8>>,
>)
    ensures
        permit matches Some(permit) ==> permit_channel(permit) == sender_channel(
            old(requester).sender(),
        ),
        permit is None ==> sender_refused(old(requester).sender(), old(requester).requests()),
        final(requester).sender() == old(requester).sender(),
        final(requester).requests() == old(requester).requests() + 1,
{
    requester.requests = Ghost(requester.requests@ + 1);
    requester.sender.try_reserve().ok()
}

/// `Sender::capacity`: how many places the channel has left at the moment of the call, which is
/// never more than it was made with.
#[verifier::external_body]
pub(crate) fn capacity(requester: &Requester) -> (places: usize)
    ensures
        places <= channel_limit(sender_channel(requester.sender())),
        sender_found_with(requester.sender(), requester.requests(), places),
{
    requester.sender.capacity()
}

/// `Permit::send`: puts a packet on the place that the permit holds.
#[verifier::external_body]
pub(crate) fn permit_send(permit: Permit<'_, Vec<u8>>, packet: Vec<u8>) -> (sent: Sent)
    ensures
        sent.channel() == permit_channel(permit),
        sent.packet() == packet@,
{
    let sent = Sent { channel: Ghost(permit_channel(permit)), packet: Ghost(packet@) };
    permit.send(packet);
    sent
}

} // verus!
