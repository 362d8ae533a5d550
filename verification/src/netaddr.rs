//! Classification of the address a server listens on, so the operator can
//! be told plainly what the choice exposes.
//!
//! The address arrives as plain values — four octets or eight segments,
//! and a port — and is sorted into the audience it admits: every
//! interface, only this machine, the local network, a special
//! broadcast or multicast address, or one specific address. The wording
//! around the classification is the caller's business.

use vstd::prelude::*;

verus! {

/// A listen address as plain values.
pub enum ListenAddr {
    V4 { octets: [u8; 4], port: u16 },
    V6 { segments: [u16; 8], port: u16 },
}

/// Who can reach a server listening on an address.
#[derive(Clone, Copy, PartialEq, Eq, Structural, Debug)]
pub enum AddressClass {
    /// The unspecified address: every interface of the machine.
    AllInterfaces,
    /// A loopback address: only this machine.
    Loopback,
    /// The limited broadcast address — unusual for listening.
    Broadcast,
    /// A private-range address: the local network.
    Private,
    /// A multicast address — unusual for listening.
    Multicast,
    /// A unique-local address: the local network.
    UniqueLocal,
    /// Some other specific address.
    Specific,
}

pub open spec fn spec_v4_unspecified(o: Seq<u8>) -> bool {
    o[0] == 0 && o[1] == 0 && o[2] == 0 && o[3] == 0
}

pub open spec fn spec_v4_loopback(o: Seq<u8>) -> bool {
    o[0] == 127
}

pub open spec fn spec_v4_broadcast(o: Seq<u8>) -> bool {
    o[0] == 255 && o[1] == 255 && o[2] == 255 && o[3] == 255
}

pub open spec fn spec_v4_private(o: Seq<u8>) -> bool {
    ||| o[0] == 10
    ||| (o[0] == 172 && 16 <= o[1] < 32)
    ||| (o[0] == 192 && o[1] == 168)
}

pub open spec fn spec_v6_unspecified(s: Seq<u16>) -> bool {
    forall|i: int| 0 <= i < 8 ==> s[i] == 0
}

pub open spec fn spec_v6_loopback(s: Seq<u16>) -> bool {
    (forall|i: int| 0 <= i < 7 ==> s[i] == 0) && s[7] == 1
}

/// The leading byte is `0xff`.
pub open spec fn spec_v6_multicast(s: Seq<u16>) -> bool {
    s[0] >= 0xff00
}

/// The leading seven bits are `1111110`.
pub open spec fn spec_v6_unique_local(s: Seq<u16>) -> bool {
    0xfc00 <= s[0] < 0xfe00
}

/// The classification, first match winning: unspecified, then loopback,
/// then the special ranges, then everything else.
pub open spec fn spec_classify(addr: ListenAddr) -> AddressClass {
    match addr {
        ListenAddr::V4 { octets, .. } => {
            let o = octets@;
            if spec_v4_unspecified(o) {
                AddressClass::AllInterfaces
            } else if spec_v4_loopback(o) {
                AddressClass::Loopback
            } else if spec_v4_broadcast(o) {
                AddressClass::Broadcast
            } else if spec_v4_private(o) {
                AddressClass::Private
            } else {
                AddressClass::Specific
            }
        },
        ListenAddr::V6 { segments, .. } => {
            let s = segments@;
            if spec_v6_unspecified(s) {
                AddressClass::AllInterfaces
            } else if spec_v6_loopback(s) {
                AddressClass::Loopback
            } else if spec_v6_multicast(s) {
                AddressClass::Multicast
            } else if spec_v6_unique_local(s) {
                AddressClass::UniqueLocal
            } else {
                AddressClass::Specific
            }
        },
    }
}

/// Sort a listen address into the audience it admits.
pub fn classify_listen_address(addr: &ListenAddr) -> (r: AddressClass)
    ensures
        r == spec_classify(*addr),
{
    match addr {
        ListenAddr::V4 { octets, .. } => {
            let o0 = octets[0];
            let o1 = octets[1];
            let o2 = octets[2];
            let o3 = octets[3];
            if o0 == 0 && o1 == 0 && o2 == 0 && o3 == 0 {
                AddressClass::AllInterfaces
            } else if o0 == 127 {
                AddressClass::Loopback
            } else if o0 == 255 && o1 == 255 && o2 == 255 && o3 == 255 {
                AddressClass::Broadcast
            } else if o0 == 10 || (o0 == 172 && 16 <= o1 && o1 < 32) || (o0 == 192 && o1 == 168) {
                AddressClass::Private
            } else {
                AddressClass::Specific
            }
        },
        ListenAddr::V6 { segments, .. } => {
            let mut all_zero = true;
            let mut i: usize = 0;
            while i < 8
                invariant
                    i <= 8,
                    all_zero == (forall|j: int| 0 <= j < i ==> segments@[j] == 0),
                decreases 8 - i,
            {
                if segments[i] != 0 {
                    all_zero = false;
                    proof {
                        assert(!(forall|j: int| 0 <= j < i + 1 ==> segments@[j] == 0));
                    }
                } else {
                    proof {
                        if all_zero {
                            assert(forall|j: int| 0 <= j < i + 1 ==> segments@[j] == 0);
                        }
                    }
                }
                i = i + 1;
            }
            if all_zero {
                return AddressClass::AllInterfaces;
            }
            let mut head_zero = true;
            let mut k: usize = 0;
            while k < 7
                invariant
                    k <= 7,
                    head_zero == (forall|j: int| 0 <= j < k ==> segments@[j] == 0),
                decreases 7 - k,
            {
                if segments[k] != 0 {
                    head_zero = false;
                    proof {
                        assert(!(forall|j: int| 0 <= j < k + 1 ==> segments@[j] == 0));
                    }
                } else {
                    proof {
                        if head_zero {
                            assert(forall|j: int| 0 <= j < k + 1 ==> segments@[j] == 0);
                        }
                    }
                }
                k = k + 1;
            }
            if head_zero && segments[7] == 1 {
                AddressClass::Loopback
            } else if segments[0] >= 0xff00 {
                AddressClass::Multicast
            } else if 0xfc00 <= segments[0] && segments[0] < 0xfe00 {
                AddressClass::UniqueLocal
            } else {
                AddressClass::Specific
            }
        },
    }
}

} // verus!
