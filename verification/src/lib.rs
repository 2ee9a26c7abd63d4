//! The packet plumbing of a userspace network stack.
//!
//! A [`Stack`] takes whole IP packets in on one side, as a sink, and passes each on to the
//! endpoint of its protocol, by a bounded channel and with backpressure. The packets that the
//! endpoints send come out on the other side, as a stream. A [`VirtualDevice`] connects the
//! channels of an endpoint to a network interface that is polled.
//!
//! How a stack and a device move from state to state is described by relations on
//! [`stack::StackView`] and [`device::DeviceView`]; what follows over any number of calls is
//! proved in [`laws`].

pub mod addr;
pub mod channel;
pub mod device;
pub mod error;
pub mod filter;
pub mod laws;
pub mod packet;
pub mod poll;
pub mod stack;

pub use addr::IpAddr;
pub use device::VirtualDevice;
pub use error::{ErrorKind, StackError};
pub use filter::{AddressFilter, IpFilter, IpFilters, NonBroadcast};
pub use packet::{AnyIpPktFrame, IpPacket, IpProtocol};
pub use poll::Poll;
pub use stack::{Intake, Stack, StackBuilder, TcpEndpoint, UdpEndpoint};
