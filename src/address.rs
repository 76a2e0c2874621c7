//! Bluetooth device addresses and the device filter.
use vstd::prelude::*;

verus! {

/// What `btleplug::api::BDAddr::from_str` stores for a string it accepts: the
/// six octets in the order of its `address` field (least significant first).
pub uninterp spec fn bdaddr_octets(s: Seq<char>) -> Option<Seq<u8>>;

/// Why an address string was refused.
#[derive(Debug, Clone, Copy, PartialEq, Eq, Structural)]
pub enum AddressError {
    /// The string does not hold exactly six colon-separated octets.
    IncorrectByteCount,
    /// One of the parts is not a hexadecimal octet.
    InvalidOctet,
}

/// A 48-bit link-layer address, most significant octet first.
#[derive(Debug, Clone, Copy)]
pub struct DeviceAddress {
    pub octets: [u8; 6],
}

impl View for DeviceAddress {
    type V = Seq<u8>;

    open spec fn view(&self) -> Seq<u8> {
        self.octets@
    }
}

/// Relies on `btleplug::api::BDAddr::from_str`: the octets it stores for an
/// accepted string, and which of its two errors it reports otherwise.
#[verifier::external_body]
fn bdaddr_from_str(s: &str) -> (r: Result<[u8; 6], AddressError>)
    ensures
        r is Ok <==> bdaddr_octets(s@) is Some,
        r is Ok ==> r->Ok_0@ == bdaddr_octets(s@)->Some_0,
{
    match <btleplug::api::BDAddr as std::str::FromStr>::from_str(s) {
        Ok(a) => Ok(a.address),
        Err(btleplug::api::ParseBDAddrError::IncorrectByteCount) => Err(
            AddressError::IncorrectByteCount,
        ),
        Err(btleplug::api::ParseBDAddrError::InvalidInt) => Err(AddressError::InvalidOctet),
    }
}

impl DeviceAddress {
    /// The address whose octets, most significant first, are `octets`.
    pub fn new(octets: [u8; 6]) -> (r: DeviceAddress)
        ensures
            r@ == octets@,
    {
        DeviceAddress { octets }
    }

    /// The address stored least significant octet first, as btleplug keeps it.
    pub fn from_stored_octets(stored: [u8; 6]) -> (r: DeviceAddress)
        ensures
            r@ == stored@.reverse(),
    {
        let r = DeviceAddress {
            octets: [stored[5], stored[4], stored[3], stored[2], stored[1], stored[0]],
        };
        assert(r@ =~= stored@.reverse());
        r
    }

    /// The octets least significant first, as btleplug keeps them.
    pub fn stored_octets(&self) -> (r: [u8; 6])
        ensures
            r@ == self@.reverse(),
    {
        let o = self.octets;
        let r = [o[5], o[4], o[3], o[2], o[1], o[0]];
        assert(r@ =~= self@.reverse());
        r
    }

    /// Parses the canonical form, six colon-separated hexadecimal octets, most
    /// significant first ("D2:4C:92:E8:F4:3F").
    pub fn parse(s: &str) -> (r: Result<DeviceAddress, AddressError>)
        ensures
            r is Ok <==> bdaddr_octets(s@) is Some,
            r is Ok ==> r->Ok_0@ == bdaddr_octets(s@)->Some_0.reverse(),
    {
        match bdaddr_from_str(s) {
            Ok(stored) => Ok(DeviceAddress::from_stored_octets(stored)),
            Err(e) => Err(e),
        }
    }

    /// The device filter: whether `self` is exactly the `target` address.
    pub fn matches(&self, target: &DeviceAddress) -> (r: bool)
        ensures
            r == (self@ == target@),
    {
        let mut i: usize = 0;
        while i < 6
            invariant
                0 <= i <= 6,
                forall|j: int| 0 <= j < i ==> self@[j] == target@[j],
            decreases 6 - i,
        {
            if self.octets[i] != target.octets[i] {
                return false;
            }
            i = i + 1;
        }
        assert(self@ =~= target@);
        true
    }
}

} // verus!
