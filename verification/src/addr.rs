//! IP addresses as plain octets.

use vstd::prelude::*;

verus! {

/// An IPv4 or IPv6 address, its octets in network order.
#[derive(Clone, Copy, Debug, PartialEq, Eq)]
pub enum IpAddr {
    V4([u8; 4]),
    V6([u8; 16]),
}

impl IpAddr {
    /// Whether the address is neither the IPv4 limited broadcast address, nor a multicast
    /// address, nor the unspecified address.
    pub open spec fn unicast(self) -> bool {
        match self {
            IpAddr::V4(octets) => {
                &&& !(forall|i: int| 0 <= i < 4 ==> #[trigger] octets@[i] == 255)
                &&& !(224 <= octets@[0] <= 239)
                &&& !(forall|i: int| 0 <= i < 4 ==> #[trigger] octets@[i] == 0)
            },
            IpAddr::V6(octets) => {
                &&& octets@[0] != 255
                &&& !(forall|i: int| 0 <= i < 16 ==> #[trigger] octets@[i] == 0)
            },
        }
    }

    /// Decides [`IpAddr::unicast`].
    pub fn is_unicast(&self) -> (answer: bool)
        ensures
            answer == self.unicast(),
    {
        match self {
            IpAddr::V4(octets) => {
                let broadcast = all_equal(octets.as_slice(), 255);
                let multicast = 224 <= octets[0] && octets[0] <= 239;
                let unspecified = all_equal(octets.as_slice(), 0);
                !broadcast && !multicast && !unspecified
            },
            IpAddr::V6(octets) => {
                let multicast = octets[0] == 255;
                let unspecified = all_equal(octets.as_slice(), 0);
                !multicast && !unspecified
            },
        }
    }
}

/// An IPv4 address is unicast exactly when the number that its octets spell is neither zero nor
/// the largest of 32 bits, nor in the multicast range from 224.0.0.0 up to 240.0.0.0.
pub proof fn law_ipv4_unicast(octets: [u8; 4])
    ensures
        ({
            let number = octets@[0] * 0x1000000 + octets@[1] * 0x10000 + octets@[2] * 0x100
                + octets@[3];
            IpAddr::V4(octets).unicast() <==> number != 0 && number != 0xffffffff && !(0xe0000000
                <= number < 0xf0000000)
        }),
{
    let all: Seq<u8> = octets@;
    let (a, b, c, d): (u8, u8, u8, u8) = (all[0], all[1], all[2], all[3]);
    let number: int = a * 0x1000000 + b * 0x10000 + c * 0x100 + d;
    assert((forall|i: int| 0 <= i < 4 ==> #[trigger] octets@[i] == 255) <==> a == 255 && b == 255
        && c == 255 && d == 255);
    assert((forall|i: int| 0 <= i < 4 ==> #[trigger] octets@[i] == 0) <==> a == 0 && b == 0 && c
        == 0 && d == 0);
    assert(number == 0xffffffff <==> a == 255 && b == 255 && c == 255 && d == 255);
    assert(number == 0 <==> a == 0 && b == 0 && c == 0 && d == 0);
    assert(0xe0000000 <= number < 0xf0000000 <==> 224 <= a <= 239);
}

/// An IPv6 address is unicast exactly when its first octet is not 255, which marks multicast, and
/// some octet is not zero.
pub proof fn law_ipv6_unicast(octets: [u8; 16])
    ensures
        IpAddr::V6(octets).unicast() <==> octets@[0] != 255 && exists|i: int|
            0 <= i < 16 && #[trigger] octets@[i] != 0,
{
}

/// Whether every octet has the given value.
fn all_equal(octets: &[u8], value: u8) -> (answer: bool)
    ensures
        answer == (forall|i: int| 0 <= i < octets@.len() ==> #[trigger] octets@[i] == value),
{
    let mut next: usize = 0;
    while next < octets.len()
        invariant
            next <= octets@.len(),
            forall|i: int| 0 <= i < next ==> #[trigger] octets@[i] == value,
        decreases octets@.len() - next,
    {
        if octets[next] != value {
            return false;
        }
        next += 1;
    }
    true
}

} // verus!
