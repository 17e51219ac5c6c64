//! MAC address setup (class 43): the MAC address of a communication port.

use vstd::prelude::*;
use crate::cosem::{copy_bytes, logical_name_data, logical_name_value, opt_view, CosemObjectError, DataView, DlmsData, ObisCode};
use crate::text::{mac_text, mac_to_string};

verus! {

/// The six bytes of a slice that holds exactly six.
pub fn mac_from_slice(s: &[u8]) -> (r: [u8; 6])
    requires
        s@.len() == 6,
    ensures
        r@ == s@,
{
    let r = [s[0], s[1], s[2], s[3], s[4], s[5]];
    assert(r@ =~= s@);
    r
}

/// MAC address setup: one MAC address.
pub struct MacAddressSetup {
    logical_name: ObisCode,
    mac_address: [u8; 6],
}

/// The attributes of a [`MacAddressSetup`].
pub struct MacAddressSetupView {
    pub logical_name: ObisCode,
    pub mac_address: Seq<u8>,
}

impl View for MacAddressSetup {
    type V = MacAddressSetupView;

    closed spec fn view(&self) -> MacAddressSetupView {
        MacAddressSetupView { logical_name: self.logical_name, mac_address: self.mac_address@ }
    }
}

impl MacAddressSetupView {
    /// The value of an attribute, where the class exposes it.
    pub open spec fn attribute(self, attr: u8) -> Option<DataView> {
        match attr {
            1 => Some(logical_name_value(self.logical_name)),
            2 => Some(DataView::OctetString(self.mac_address)),
            _ => None,
        }
    }

    /// Writing attribute `attr` with the decoded value `d` (`None` where
    /// decoding failed): the address (2) takes an octet string of six bytes.
    pub open spec fn write(self, attr: u8, d: Option<DataView>) -> (Result<(), CosemObjectError>, MacAddressSetupView) {
        match attr {
            2 => match d {
                Some(DataView::OctetString(b)) => if b.len() == 6 {
                    (Ok(()), MacAddressSetupView { mac_address: b, ..self })
                } else {
                    (Err(CosemObjectError::InvalidData), self)
                },
                _ => (Err(CosemObjectError::InvalidData), self),
            },
            _ => (Err(CosemObjectError::AttributeNotSupported(attr)), self),
        }
    }
}

impl MacAddressSetup {
    /// A setup holding the all-zero address.
    pub fn new(logical_name: ObisCode) -> (r: MacAddressSetup)
        ensures
            r@ == (MacAddressSetupView { logical_name, mac_address: Seq::new(6, |i: int| 0u8) }),
    {
        let r = MacAddressSetup { logical_name, mac_address: [0u8; 6] };
        assert(r@.mac_address =~= Seq::new(6, |i: int| 0u8));
        r
    }

    pub fn with_mac(logical_name: ObisCode, mac: [u8; 6]) -> (r: MacAddressSetup)
        ensures
            r@ == (MacAddressSetupView { logical_name, mac_address: mac@ }),
    {
        MacAddressSetup { logical_name, mac_address: mac }
    }

    pub fn mac_address(&self) -> (r: &[u8; 6])
        ensures
            r@ == self@.mac_address,
    {
        &self.mac_address
    }

    pub fn set_mac_address(&mut self, mac: [u8; 6])
        ensures
            final(self)@ == (MacAddressSetupView { mac_address: mac@, ..old(self)@ }),
    {
        self.mac_address = mac;
    }

    /// The address as `XX:XX:XX:XX:XX:XX` in upper-case hexadecimal.
    pub fn mac_string(&self) -> (r: String)
        ensures
            r@ == mac_text(self@.mac_address),
    {
        mac_to_string(&self.mac_address)
    }

    pub fn class_id(&self) -> (r: u16)
        ensures
            r == 43,
    {
        43
    }

    pub fn logical_name(&self) -> (r: ObisCode)
        ensures
            r == self@.logical_name,
    {
        self.logical_name
    }

    pub fn attribute_count(&self) -> (r: u8)
        ensures
            r == 3,
    {
        3
    }

    pub fn method_count(&self) -> (r: u8)
        ensures
            r == 0,
    {
        0
    }

    /// The value of attribute `attr`, for the A-XDR encoder.
    pub fn attribute_data(&self, attr: u8) -> (r: Option<DlmsData>)
        ensures
            opt_view(r) == self@.attribute(attr),
    {
        match attr {
            1 => Some(logical_name_data(&self.logical_name)),
            2 => Some(DlmsData::OctetString(copy_bytes(&self.mac_address))),
            _ => None,
        }
    }

    /// Writes attribute `attr` from the value the A-XDR decoder produced
    /// (`None` where decoding failed).
    pub fn apply_attribute(&mut self, attr: u8, decoded: Option<DlmsData>) -> (r: Result<(), CosemObjectError>)
        ensures
            (r, final(self)@) == old(self)@.write(attr, opt_view(decoded)),
    {
        match attr {
            2 => match decoded {
                Some(DlmsData::OctetString(b)) => if b.len() == 6 {
                    self.mac_address = mac_from_slice(b.as_slice());
                    Ok(())
                } else {
                    Err(CosemObjectError::InvalidData)
                },
                _ => Err(CosemObjectError::InvalidData),
            },
            _ => Err(CosemObjectError::AttributeNotSupported(attr)),
        }
    }
}

/// A six-byte address written is read back; any other length is refused
/// and leaves the address as it was.
pub proof fn lemma_read_back(v: MacAddressSetupView, b: Seq<u8>)
    ensures
        b.len() == 6 ==> v.write(2, Some(DataView::OctetString(b))).1.attribute(2) == Some(DataView::OctetString(b)),
        b.len() != 6 ==> v.write(2, Some(DataView::OctetString(b))) == (
            Err::<(), CosemObjectError>(CosemObjectError::InvalidData),
            v,
        ),
{
}

} // verus!
