//! Hardware addresses, held as `eui48::MacAddress`.
use vstd::prelude::*;
use vstd::slice::slice_subrange;
use eui48::{MacAddress, ParseError};

verus! {

#[verifier::external_type_specification]
#[verifier::external_body]
pub struct ExMacAddress(MacAddress);

#[verifier::external_type_specification]
#[verifier::external_body]
pub struct ExParseError(ParseError);

/// The six bytes that a `MacAddress` holds.
pub uninterp spec fn mac_octets(m: MacAddress) -> Seq<u8>;

/// Relies on eui48's `MacAddress::from_bytes`: it fails exactly when the slice
/// is not six bytes long, and otherwise holds those bytes.
#[verifier::external_body]
fn mac_from_bytes(bytes: &[u8]) -> (r: Result<MacAddress, ParseError>)
    ensures
        r is Ok <==> bytes@.len() == 6,
        r matches Ok(m) ==> mac_octets(m) == bytes@,
{
    MacAddress::from_bytes(bytes)
}

/// Builds the hardware address held in the first six bytes of `bytes`; what
/// follows them is left unread. Gives `None` when fewer than six are there.
pub fn mac_address(bytes: &[u8]) -> (r: Option<MacAddress>)
    ensures
        r is Some <==> bytes@.len() >= 6,
        r matches Some(m) ==> mac_octets(m) == bytes@.subrange(0, 6),
{
    if bytes.len() < 6 {
        return None;
    }
    match mac_from_bytes(slice_subrange(bytes, 0, 6)) {
        Ok(m) => Some(m),
        Err(_) => None,
    }
}

} // verus!
