//! What each address field stands for, by the distribution-system flags.
use vstd::prelude::*;
use crate::control::FrameControl;

verus! {

/// The role an address field plays besides receiver (address 1) and
/// transmitter (address 2).
#[derive(Clone, Copy, Debug, PartialEq, Eq, Structural)]
pub enum AddressRole {
    /// The immediate receiver, and nothing more.
    Receiver,
    /// The immediate transmitter, and nothing more.
    Transmitter,
    /// The final destination of the payload.
    Destination,
    /// The station that first sent the payload.
    Source,
    /// The basic service set identifier.
    Bssid,
}

/// The roles of addresses 1 to 4; the fourth is there only when both flags are set.
#[derive(Clone, Copy, Debug, PartialEq, Eq, Structural)]
pub struct AddressRoles {
    pub address1: AddressRole,
    pub address2: AddressRole,
    pub address3: AddressRole,
    pub address4: Option<AddressRole>,
}

/// The roles for the flags `(to_ds, from_ds)`: `(0,0)` destination, source,
/// BSSID; `(0,1)` destination, BSSID, source; `(1,0)` BSSID, source,
/// destination; `(1,1)` receiver, transmitter, destination, source.
pub open spec fn address_roles_of(to_ds: bool, from_ds: bool) -> AddressRoles {
    if !to_ds && !from_ds {
        AddressRoles {
            address1: AddressRole::Destination,
            address2: AddressRole::Source,
            address3: AddressRole::Bssid,
            address4: None,
        }
    } else if !to_ds && from_ds {
        AddressRoles {
            address1: AddressRole::Destination,
            address2: AddressRole::Bssid,
            address3: AddressRole::Source,
            address4: None,
        }
    } else if to_ds && !from_ds {
        AddressRoles {
            address1: AddressRole::Bssid,
            address2: AddressRole::Source,
            address3: AddressRole::Destination,
            address4: None,
        }
    } else {
        AddressRoles {
            address1: AddressRole::Receiver,
            address2: AddressRole::Transmitter,
            address3: AddressRole::Destination,
            address4: Some(AddressRole::Source),
        }
    }
}

/// The roles of the address fields of a frame described by `fc`.
pub fn address_roles(fc: &FrameControl) -> (r: AddressRoles)
    ensures
        r == address_roles_of(fc.to_ds, fc.from_ds),
        r.address4 is Some <==> (fc.to_ds && fc.from_ds),
{
    match (fc.to_ds, fc.from_ds) {
        (false, false) => AddressRoles {
            address1: AddressRole::Destination,
            address2: AddressRole::Source,
            address3: AddressRole::Bssid,
            address4: None,
        },
        (false, true) => AddressRoles {
            address1: AddressRole::Destination,
            address2: AddressRole::Bssid,
            address3: AddressRole::Source,
            address4: None,
        },
        (true, false) => AddressRoles {
            address1: AddressRole::Bssid,
            address2: AddressRole::Source,
            address3: AddressRole::Destination,
            address4: None,
        },
        (true, true) => AddressRoles {
            address1: AddressRole::Receiver,
            address2: AddressRole::Transmitter,
            address3: AddressRole::Destination,
            address4: Some(AddressRole::Source),
        },
    }
}

} // verus!
