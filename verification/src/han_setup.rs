//! Home area network setup (class 209).

use vstd::prelude::*;
use crate::cosem::{
    copy_bytes, logical_name_data, logical_name_value, opt_view, same_kind, view_as_bool,
    view_as_octet_string, CosemObjectError, DataView, DlmsData, ObisCode,
};

verus! {

/// Home area network setup: enable flag, MAC address and network key.
pub struct HanSetup {
    logical_name: ObisCode,
    enabled: bool,
    mac_address: [u8; 6],
    network_key: Vec<u8>,
}

/// The attributes of a [`HanSetup`].
pub struct HanSetupView {
    pub logical_name: ObisCode,
    pub enabled: bool,
    pub mac_address: Seq<u8>,
    pub network_key: Seq<u8>,
}

impl View for HanSetup {
    type V = HanSetupView;

    closed spec fn view(&self) -> HanSetupView {
        HanSetupView {
            logical_name: self.logical_name,
            enabled: self.enabled,
            mac_address: self.mac_address@,
            network_key: self.network_key@,
        }
    }
}

impl HanSetupView {
    /// The value of an attribute, where the class exposes it.
    pub open spec fn attribute(self, attr: u8) -> Option<DataView> {
        match attr {
            1 => Some(logical_name_value(self.logical_name)),
            2 => Some(DataView::Boolean(self.enabled)),
            3 => Some(DataView::OctetString(self.mac_address)),
            4 => Some(DataView::OctetString(self.network_key)),
            _ => None,
        }
    }

    /// Writing attribute `attr` with the decoded value `d` (`None` where
    /// decoding failed): the outcome and the new attributes.
    pub open spec fn write(self, attr: u8, d: Option<DataView>) -> (Result<(), CosemObjectError>, HanSetupView) {
        match attr {
            2 => match d {
                Some(v) => match view_as_bool(v) {
                    Some(v) => (Ok(()), HanSetupView { enabled: v, ..self }),
                    None => (Err(CosemObjectError::InvalidData), self),
                },
                None => (Err(CosemObjectError::InvalidData), self),
            },
            3 => match d {
                Some(v) => match view_as_octet_string(v) {
                    Some(b) => if b.len() == 6 {
                        (Ok(()), HanSetupView { mac_address: b, ..self })
                    } else {
                        (Err(CosemObjectError::InvalidData), self)
                    },
                    None => (Err(CosemObjectError::InvalidData), self),
                },
                None => (Err(CosemObjectError::InvalidData), self),
            },
            4 => match d {
                Some(v) => match view_as_octet_string(v) {
                    Some(v) => (Ok(()), HanSetupView { network_key: v, ..self }),
                    None => (Err(CosemObjectError::InvalidData), self),
                },
                None => (Err(CosemObjectError::InvalidData), self),
            },
            _ => (Err(CosemObjectError::AttributeNotSupported(attr)), self),
        }
    }
}

impl HanSetup {
    pub fn new(logical_name: ObisCode) -> (r: HanSetup)
        ensures
            r@ == (HanSetupView {
                logical_name: logical_name,
                enabled: false,
                mac_address: seq![0u8, 0u8, 0u8, 0u8, 0u8, 0u8],
                network_key: Seq::<u8>::empty(),
            }),
    {
        let mac = [0u8, 0u8, 0u8, 0u8, 0u8, 0u8];
        assert(mac@ =~= seq![0u8, 0u8, 0u8, 0u8, 0u8, 0u8]);
        HanSetup {
            logical_name: logical_name,
            enabled: false,
            mac_address: mac,
            network_key: Vec::new(),
        }
    }

    pub fn enabled(&self) -> (r: bool)
        ensures
            r == self@.enabled,
    {
        self.enabled
    }

    pub fn mac_address(&self) -> (r: &[u8; 6])
        ensures
            r@ == self@.mac_address,
    {
        &self.mac_address
    }

    pub fn network_key(&self) -> (r: &[u8])
        ensures
            r@ == self@.network_key,
    {
        self.network_key.as_slice()
    }

    pub fn set_enabled(&mut self, enabled: bool)
        ensures
            final(self)@ == (HanSetupView { enabled: enabled, ..old(self)@ }),
    {
        self.enabled = enabled;
    }

    pub fn set_mac_address(&mut self, mac: [u8; 6])
        ensures
            final(self)@ == (HanSetupView { mac_address: mac@, ..old(self)@ }),
    {
        self.mac_address = mac;
    }

    pub fn set_network_key(&mut self, key: Vec<u8>)
        ensures
            final(self)@ == (HanSetupView { network_key: key@, ..old(self)@ }),
    {
        self.network_key = key;
    }

    pub fn class_id(&self) -> (r: u16)
        ensures
            r == 209,
    {
        209
    }

    pub fn logical_name(&self) -> (r: ObisCode)
        ensures
            r == self@.logical_name,
    {
        self.logical_name
    }

    pub fn attribute_count(&self) -> (r: u8)
        ensures
            r == 5,
    {
        5
    }

    pub fn method_count(&self) -> (r: u8)
        ensures
            r == 0,
    {
        0
    }

    /// The value of attribute `attr`, for the A-XDR encoder.
    pub fn attribute_data(&self, attr: u8) -> (r: Option<DlmsData>)
        ensures
            opt_view(r) == self@.attribute(attr),
    {
        match attr {
            1 => Some(logical_name_data(&self.logical_name)),
            2 => Some(DlmsData::Boolean(self.enabled)),
            3 => Some(DlmsData::OctetString(copy_bytes(&self.mac_address))),
            4 => Some(DlmsData::OctetString(copy_bytes(self.network_key.as_slice()))),
            _ => None,
        }
    }

    /// Writes attribute `attr` from the value the A-XDR decoder produced
    /// (`None` where decoding failed).
    pub fn apply_attribute(&mut self, attr: u8, decoded: Option<DlmsData>) -> (r: Result<(), CosemObjectError>)
        ensures
            (r, final(self)@) == old(self)@.write(attr, opt_view(decoded)),
    {
        match attr {
            2 => {
                match decoded {
                    Some(d) => match d.as_bool() {
                        Some(v) => {
                            self.enabled = v;
                            Ok(())
                        },
                        None => Err(CosemObjectError::InvalidData),
                    },
                    None => Err(CosemObjectError::InvalidData),
                }
            },
            3 => {
                match decoded {
                    Some(d) => match d.as_octet_string() {
                        Some(b) => {
                            if b.len() == 6 {
                                self.mac_address = [b[0], b[1], b[2], b[3], b[4], b[5]];
                                assert(self.mac_address@ =~= b@);
                                Ok(())
                            } else {
                                Err(CosemObjectError::InvalidData)
                            }
                        },
                        None => Err(CosemObjectError::InvalidData),
                    },
                    None => Err(CosemObjectError::InvalidData),
                }
            },
            4 => {
                match decoded {
                    Some(d) => match d.as_octet_string() {
                        Some(b) => {
                            self.network_key = copy_bytes(b);
                            Ok(())
                        },
                        None => Err(CosemObjectError::InvalidData),
                    },
                    None => Err(CosemObjectError::InvalidData),
                }
            },
            _ => Err(CosemObjectError::AttributeNotSupported(attr)),
        }
    }
}

/// A value accepted for an attribute is read back unchanged, where it is
/// of the kind that the attribute reports.
pub proof fn lemma_read_back(v: HanSetupView, attr: u8, d: DataView)
    requires
        v.write(attr, Some(d)).0 is Ok,
        v.attribute(attr) matches Some(cur) && same_kind(d, cur),
    ensures
        v.write(attr, Some(d)).1.attribute(attr) == Some(d),
{
}

} // verus!
