//! IC103 Ethernet setup: IEEE 802.3 port configuration.

use vstd::prelude::*;
use crate::cosem::{copy_bytes, logical_name_data, logical_name_value, opt_view, CosemObjectError, DataView, DlmsData, ObisCode};
use crate::mac_address_setup::mac_from_slice;
use crate::text::{mac_text, mac_to_string};

verus! {

/// Duplex mode of the link.
#[derive(Debug, Clone, Copy, PartialEq, Eq, Structural)]
pub enum DuplexMode {
    /// Half duplex.
    Half,
    /// Full duplex.
    Full,
}

/// The duplex mode for a stored code: 0 is half, anything else full.
pub open spec fn duplex_of(value: u8) -> DuplexMode {
    if value == 0 {
        DuplexMode::Half
    } else {
        DuplexMode::Full
    }
}

/// The code of a duplex mode.
pub open spec fn duplex_code(mode: DuplexMode) -> u8 {
    match mode {
        DuplexMode::Half => 0,
        DuplexMode::Full => 1,
    }
}

impl DuplexMode {
    pub fn from_u8(value: u8) -> (r: DuplexMode)
        ensures
            r == duplex_of(value),
    {
        match value {
            0 => DuplexMode::Half,
            _ => DuplexMode::Full,
        }
    }

    pub fn to_u8(self) -> (r: u8)
        ensures
            r == duplex_code(self),
    {
        match self {
            DuplexMode::Half => 0,
            DuplexMode::Full => 1,
        }
    }
}

/// A mode survives its code, and codes 0 and 1 survive their mode.
pub proof fn lemma_duplex_round_trip(mode: DuplexMode, value: u8)
    ensures
        duplex_of(duplex_code(mode)) == mode,
        value <= 1 ==> duplex_code(duplex_of(value)) == value,
{
}

/// Ethernet setup: address, link speed (bits per second), duplex mode,
/// auto-negotiation, link status and MTU.
pub struct EthernetSetup {
    logical_name: ObisCode,
    mac_address: [u8; 6],
    link_speed: u32,
    duplex_mode: u8,
    auto_negotiation: bool,
    link_status: bool,
    mtu: u16,
}

/// The attributes of an [`EthernetSetup`].
pub struct EthernetSetupView {
    pub logical_name: ObisCode,
    pub mac_address: Seq<u8>,
    pub link_speed: u32,
    pub duplex_mode: u8,
    pub auto_negotiation: bool,
    pub link_status: bool,
    pub mtu: u16,
}

impl View for EthernetSetup {
    type V = EthernetSetupView;

    closed spec fn view(&self) -> EthernetSetupView {
        EthernetSetupView {
            logical_name: self.logical_name,
            mac_address: self.mac_address@,
            link_speed: self.link_speed,
            duplex_mode: self.duplex_mode,
            auto_negotiation: self.auto_negotiation,
            link_status: self.link_status,
            mtu: self.mtu,
        }
    }
}

impl EthernetSetupView {
    /// The value of an attribute, where the class exposes it.
    pub open spec fn attribute(self, attr: u8) -> Option<DataView> {
        match attr {
            1 => Some(logical_name_value(self.logical_name)),
            2 => Some(DataView::OctetString(self.mac_address)),
            3 => Some(DataView::DoubleLongUnsigned(self.link_speed)),
            4 => Some(DataView::Enum(self.duplex_mode)),
            5 => Some(DataView::Boolean(self.auto_negotiation)),
            6 => Some(DataView::Boolean(self.link_status)),
            7 => Some(DataView::LongUnsigned(self.mtu)),
            _ => None,
        }
    }

    /// Writing attribute `attr` with the decoded value `d` (`None` where
    /// decoding failed): the outcome and the new attributes.  The link
    /// status (6) is not writable.
    pub open spec fn write(self, attr: u8, d: Option<DataView>) -> (Result<(), CosemObjectError>, EthernetSetupView) {
        match attr {
            2 => match d {
                Some(DataView::OctetString(b)) => if b.len() == 6 {
                    (Ok(()), EthernetSetupView { mac_address: b, ..self })
                } else {
                    (Err(CosemObjectError::InvalidData), self)
                },
                _ => (Err(CosemObjectError::InvalidData), self),
            },
            3 => match d {
                Some(DataView::DoubleLongUnsigned(v)) => (Ok(()), EthernetSetupView { link_speed: v, ..self }),
                _ => (Err(CosemObjectError::InvalidData), self),
            },
            4 => match d {
                Some(DataView::Enum(v)) => (Ok(()), EthernetSetupView { duplex_mode: v, ..self }),
                _ => (Err(CosemObjectError::InvalidData), self),
            },
            5 => match d {
                Some(DataView::Boolean(v)) => (Ok(()), EthernetSetupView { auto_negotiation: v, ..self }),
                _ => (Err(CosemObjectError::InvalidData), self),
            },
            7 => match d {
                Some(DataView::LongUnsigned(v)) => (Ok(()), EthernetSetupView { mtu: v, ..self }),
                _ => (Err(CosemObjectError::InvalidData), self),
            },
            _ => (Err(CosemObjectError::AttributeNotSupported(attr)), self),
        }
    }
}

impl EthernetSetup {
    /// A full-duplex 100 Mbit/s port with auto-negotiation, link down, MTU
    /// 1500 and the all-zero address.
    pub fn new(logical_name: ObisCode) -> (r: EthernetSetup)
        ensures
            r@ == (EthernetSetupView {
                logical_name,
                mac_address: Seq::new(6, |i: int| 0u8),
                link_speed: 100_000_000,
                duplex_mode: 1,
                auto_negotiation: true,
                link_status: false,
                mtu: 1500,
            }),
    {
        let r = EthernetSetup {
            logical_name,
            mac_address: [0u8; 6],
            link_speed: 100_000_000,
            duplex_mode: DuplexMode::Full.to_u8(),
            auto_negotiation: true,
            link_status: false,
            mtu: 1500,
        };
        assert(r@.mac_address =~= Seq::new(6, |i: int| 0u8));
        r
    }

    pub fn mac_address(&self) -> (r: &[u8; 6])
        ensures
            r@ == self@.mac_address,
    {
        &self.mac_address
    }

    pub fn set_mac_address(&mut self, mac: [u8; 6])
        ensures
            final(self)@ == (EthernetSetupView { mac_address: mac@, ..old(self)@ }),
    {
        self.mac_address = mac;
    }

    /// The address as `XX:XX:XX:XX:XX:XX` in upper-case hexadecimal.
    pub fn mac_string(&self) -> (r: String)
        ensures
            r@ == mac_text(self@.mac_address),
    {
        mac_to_string(&self.mac_address)
    }

    pub fn link_speed(&self) -> (r: u32)
        ensures
            r == self@.link_speed,
    {
        self.link_speed
    }

    pub fn set_link_speed(&mut self, speed: u32)
        ensures
            final(self)@ == (EthernetSetupView { link_speed: speed, ..old(self)@ }),
    {
        self.link_speed = speed;
    }

    /// The link speed in whole megabits per second.
    pub fn link_speed_mbps(&self) -> (r: u32)
        ensures
            r == self@.link_speed / 1_000_000,
    {
        self.link_speed / 1_000_000
    }

    pub fn duplex_mode(&self) -> (r: DuplexMode)
        ensures
            r == duplex_of(self@.duplex_mode),
    {
        DuplexMode::from_u8(self.duplex_mode)
    }

    pub fn set_duplex_mode(&mut self, mode: DuplexMode)
        ensures
            final(self)@ == (EthernetSetupView { duplex_mode: duplex_code(mode), ..old(self)@ }),
    {
        self.duplex_mode = mode.to_u8();
    }

    pub fn auto_negotiation(&self) -> (r: bool)
        ensures
            r == self@.auto_negotiation,
    {
        self.auto_negotiation
    }

    pub fn set_auto_negotiation(&mut self, enabled: bool)
        ensures
            final(self)@ == (EthernetSetupView { auto_negotiation: enabled, ..old(self)@ }),
    {
        self.auto_negotiation = enabled;
    }

    pub fn link_status(&self) -> (r: bool)
        ensures
            r == self@.link_status,
    {
        self.link_status
    }

    pub fn set_link_status(&mut self, status: bool)
        ensures
            final(self)@ == (EthernetSetupView { link_status: status, ..old(self)@ }),
    {
        self.link_status = status;
    }

    pub fn mtu(&self) -> (r: u16)
        ensures
            r == self@.mtu,
    {
        self.mtu
    }

    pub fn set_mtu(&mut self, mtu: u16)
        ensures
            final(self)@ == (EthernetSetupView { mtu, ..old(self)@ }),
    {
        self.mtu = mtu;
    }

    /// Whether the link is up.
    pub fn is_connected(&self) -> (r: bool)
        ensures
            r == self@.link_status,
    {
        self.link_status
    }

    pub fn class_id(&self) -> (r: u16)
        ensures
            r == 103,
    {
        103
    }

    pub fn logical_name(&self) -> (r: ObisCode)
        ensures
            r == self@.logical_name,
    {
        self.logical_name
    }

    pub fn attribute_count(&self) -> (r: u8)
        ensures
            r == 7,
    {
        7
    }

    pub fn method_count(&self) -> (r: u8)
        ensures
            r == 0,
    {
        0
    }

    /// The value of attribute `attr`, for the A-XDR encoder.
    pub fn attribute_data(&self, attr: u8) -> (r: Option<DlmsData>)
        ensures
            opt_view(r) == self@.attribute(attr),
    {
        match attr {
            1 => Some(logical_name_data(&self.logical_name)),
            2 => Some(DlmsData::OctetString(copy_bytes(&self.mac_address))),
            3 => Some(DlmsData::DoubleLongUnsigned(self.link_speed)),
            4 => Some(DlmsData::Enum(self.duplex_mode)),
            5 => Some(DlmsData::Boolean(self.auto_negotiation)),
            6 => Some(DlmsData::Boolean(self.link_status)),
            7 => Some(DlmsData::LongUnsigned(self.mtu)),
            _ => None,
        }
    }

    /// Writes attribute `attr` from the value the A-XDR decoder produced
    /// (`None` where decoding failed).
    pub fn apply_attribute(&mut self, attr: u8, decoded: Option<DlmsData>) -> (r: Result<(), CosemObjectError>)
        ensures
            (r, final(self)@) == old(self)@.write(attr, opt_view(decoded)),
    {
        match attr {
            2 => match decoded {
                Some(DlmsData::OctetString(b)) => if b.len() == 6 {
                    self.mac_address = mac_from_slice(b.as_slice());
                    Ok(())
                } else {
                    Err(CosemObjectError::InvalidData)
                },
                _ => Err(CosemObjectError::InvalidData),
            },
            3 => match decoded {
                Some(DlmsData::DoubleLongUnsigned(v)) => {
                    self.link_speed = v;
                    Ok(())
                },
                _ => Err(CosemObjectError::InvalidData),
            },
            4 => match decoded {
                Some(DlmsData::Enum(v)) => {
                    self.duplex_mode = v;
                    Ok(())
                },
                _ => Err(CosemObjectError::InvalidData),
            },
            5 => match decoded {
                Some(DlmsData::Boolean(v)) => {
                    self.auto_negotiation = v;
                    Ok(())
                },
                _ => Err(CosemObjectError::InvalidData),
            },
            7 => match decoded {
                Some(DlmsData::LongUnsigned(v)) => {
                    self.mtu = v;
                    Ok(())
                },
                _ => Err(CosemObjectError::InvalidData),
            },
            _ => Err(CosemObjectError::AttributeNotSupported(attr)),
        }
    }
}

/// A value accepted for a writable attribute is read back unchanged.
pub proof fn lemma_read_back(v: EthernetSetupView, attr: u8, d: DataView)
    requires
        v.write(attr, Some(d)).0 is Ok,
    ensures
        v.write(attr, Some(d)).1.attribute(attr) == Some(d),
{
}

} // verus!
