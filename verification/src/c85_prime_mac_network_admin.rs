//! IC85 PRIME NB OFDM PLC MAC network administration data.

use vstd::prelude::*;
use crate::cosem::{
    logical_name_data, logical_name_value, opt_view, same_kind, CosemObjectError, DataView,
    DlmsData, ObisCode,
};

verus! {

/// PRIME MAC network administration data.
pub struct PrimeMacNetworkAdmin {
    logical_name: ObisCode,
    network_id: u32,
    network_role: u8,
    network_state: u8,
}

/// The attributes of a [`PrimeMacNetworkAdmin`].
pub struct PrimeMacNetworkAdminView {
    pub logical_name: ObisCode,
    pub network_id: u32,
    pub network_role: u8,
    pub network_state: u8,
}

impl View for PrimeMacNetworkAdmin {
    type V = PrimeMacNetworkAdminView;

    closed spec fn view(&self) -> PrimeMacNetworkAdminView {
        PrimeMacNetworkAdminView {
            logical_name: self.logical_name,
            network_id: self.network_id,
            network_role: self.network_role,
            network_state: self.network_state,
        }
    }
}

impl PrimeMacNetworkAdminView {
    /// The value of an attribute, where the class exposes it.
    pub open spec fn attribute(self, attr: u8) -> Option<DataView> {
        match attr {
            1 => Some(logical_name_value(self.logical_name)),
            2 => Some(DataView::DoubleLongUnsigned(self.network_id)),
            3 => Some(DataView::Unsigned(self.network_role)),
            4 => Some(DataView::Unsigned(self.network_state)),
            _ => None,
        }
    }

    /// Writing attribute `attr` with the decoded value `d` (`None` where
    /// decoding failed): the outcome and the new attributes.
    pub open spec fn write(self, attr: u8, d: Option<DataView>) -> (Result<(), CosemObjectError>, PrimeMacNetworkAdminView) {
        match attr {
            2 => match d {
                Some(DataView::DoubleLongUnsigned(v)) => (Ok(()), PrimeMacNetworkAdminView { network_id: v, ..self }),
                _ => (Err(CosemObjectError::InvalidData), self),
            },
            3 => match d {
                Some(DataView::Unsigned(v)) => (Ok(()), PrimeMacNetworkAdminView { network_role: v, ..self }),
                _ => (Err(CosemObjectError::InvalidData), self),
            },
            4 => match d {
                Some(DataView::Unsigned(v)) => (Ok(()), PrimeMacNetworkAdminView { network_state: v, ..self }),
                _ => (Err(CosemObjectError::InvalidData), self),
            },
            _ => (Err(CosemObjectError::AttributeNotSupported(attr)), self),
        }
    }
}

impl PrimeMacNetworkAdmin {
    pub fn new(logical_name: ObisCode) -> (r: PrimeMacNetworkAdmin)
        ensures
            r@ == (PrimeMacNetworkAdminView {
                logical_name: logical_name,
                network_id: 0,
                network_role: 0,
                network_state: 0,
            }),
    {
        PrimeMacNetworkAdmin {
            logical_name: logical_name,
            network_id: 0,
            network_role: 0,
            network_state: 0,
        }
    }

    pub fn network_id(&self) -> (r: u32)
        ensures
            r == self@.network_id,
    {
        self.network_id
    }

    pub fn network_role(&self) -> (r: u8)
        ensures
            r == self@.network_role,
    {
        self.network_role
    }

    pub fn network_state(&self) -> (r: u8)
        ensures
            r == self@.network_state,
    {
        self.network_state
    }

    pub fn set_network_id(&mut self, v: u32)
        ensures
            final(self)@ == (PrimeMacNetworkAdminView { network_id: v, ..old(self)@ }),
    {
        self.network_id = v;
    }

    pub fn set_network_role(&mut self, v: u8)
        ensures
            final(self)@ == (PrimeMacNetworkAdminView { network_role: v, ..old(self)@ }),
    {
        self.network_role = v;
    }

    pub fn set_network_state(&mut self, v: u8)
        ensures
            final(self)@ == (PrimeMacNetworkAdminView { network_state: v, ..old(self)@ }),
    {
        self.network_state = v;
    }

    pub fn class_id(&self) -> (r: u16)
        ensures
            r == 85,
    {
        85
    }

    pub fn logical_name(&self) -> (r: ObisCode)
        ensures
            r == self@.logical_name,
    {
        self.logical_name
    }

    pub fn attribute_count(&self) -> (r: u8)
        ensures
            r == 4,
    {
        4
    }

    pub fn method_count(&self) -> (r: u8)
        ensures
            r == 0,
    {
        0
    }

    /// The value of attribute `attr`, for the A-XDR encoder.
    pub fn attribute_data(&self, attr: u8) -> (r: Option<DlmsData>)
        ensures
            opt_view(r) == self@.attribute(attr),
    {
        match attr {
            1 => Some(logical_name_data(&self.logical_name)),
            2 => Some(DlmsData::DoubleLongUnsigned(self.network_id)),
            3 => Some(DlmsData::Unsigned(self.network_role)),
            4 => Some(DlmsData::Unsigned(self.network_state)),
            _ => None,
        }
    }

    /// Writes attribute `attr` from the value the A-XDR decoder produced
    /// (`None` where decoding failed).
    pub fn apply_attribute(&mut self, attr: u8, decoded: Option<DlmsData>) -> (r: Result<(), CosemObjectError>)
        ensures
            (r, final(self)@) == old(self)@.write(attr, opt_view(decoded)),
    {
        match attr {
            2 => {
                match decoded {
                    Some(DlmsData::DoubleLongUnsigned(v)) => {
                        self.network_id = v;
                        Ok(())
                    },
                    _ => Err(CosemObjectError::InvalidData),
                }
            },
            3 => {
                match decoded {
                    Some(DlmsData::Unsigned(v)) => {
                        self.network_role = v;
                        Ok(())
                    },
                    _ => Err(CosemObjectError::InvalidData),
                }
            },
            4 => {
                match decoded {
                    Some(DlmsData::Unsigned(v)) => {
                        self.network_state = v;
                        Ok(())
                    },
                    _ => Err(CosemObjectError::InvalidData),
                }
            },
            _ => Err(CosemObjectError::AttributeNotSupported(attr)),
        }
    }
}

/// A value accepted for an attribute is read back unchanged, where it is
/// of the kind that the attribute reports.
pub proof fn lemma_read_back(v: PrimeMacNetworkAdminView, attr: u8, d: DataView)
    requires
        v.write(attr, Some(d)).0 is Ok,
        v.attribute(attr) matches Some(cur) && same_kind(d, cur),
    ensures
        v.write(attr, Some(d)).1.attribute(attr) == Some(d),
{
}

} // verus!
