//! IC83 PRIME NB OFDM PLC MAC functional parameters.

use vstd::prelude::*;
use crate::cosem::{
    copy_bytes, logical_name_data, logical_name_value, opt_view, same_kind, CosemObjectError,
    DataView, DlmsData, ObisCode,
};

verus! {

/// PRIME MAC functional parameters.
pub struct PrimeMacFuncParams {
    logical_name: ObisCode,
    mac_address: Vec<u8>,
    mac_frame_counter: u32,
}

/// The attributes of a [`PrimeMacFuncParams`].
pub struct PrimeMacFuncParamsView {
    pub logical_name: ObisCode,
    pub mac_address: Seq<u8>,
    pub mac_frame_counter: u32,
}

impl View for PrimeMacFuncParams {
    type V = PrimeMacFuncParamsView;

    closed spec fn view(&self) -> PrimeMacFuncParamsView {
        PrimeMacFuncParamsView {
            logical_name: self.logical_name,
            mac_address: self.mac_address@,
            mac_frame_counter: self.mac_frame_counter,
        }
    }
}

impl PrimeMacFuncParamsView {
    /// The value of an attribute, where the class exposes it.
    pub open spec fn attribute(self, attr: u8) -> Option<DataView> {
        match attr {
            1 => Some(logical_name_value(self.logical_name)),
            2 => Some(DataView::OctetString(self.mac_address)),
            3 => Some(DataView::DoubleLongUnsigned(self.mac_frame_counter)),
            _ => None,
        }
    }

    /// Writing attribute `attr` with the decoded value `d` (`None` where
    /// decoding failed): the outcome and the new attributes.
    pub open spec fn write(self, attr: u8, d: Option<DataView>) -> (Result<(), CosemObjectError>, PrimeMacFuncParamsView) {
        match attr {
            2 => match d {
                Some(DataView::OctetString(v)) => (Ok(()), PrimeMacFuncParamsView { mac_address: v, ..self }),
                _ => (Err(CosemObjectError::InvalidData), self),
            },
            3 => match d {
                Some(DataView::DoubleLongUnsigned(v)) => (Ok(()), PrimeMacFuncParamsView { mac_frame_counter: v, ..self }),
                _ => (Err(CosemObjectError::InvalidData), self),
            },
            _ => (Err(CosemObjectError::AttributeNotSupported(attr)), self),
        }
    }
}

impl PrimeMacFuncParams {
    pub fn new(logical_name: ObisCode) -> (r: PrimeMacFuncParams)
        ensures
            r@ == (PrimeMacFuncParamsView {
                logical_name: logical_name,
                mac_address: Seq::<u8>::empty(),
                mac_frame_counter: 0,
            }),
    {
        PrimeMacFuncParams {
            logical_name: logical_name,
            mac_address: Vec::new(),
            mac_frame_counter: 0,
        }
    }

    pub fn mac_address(&self) -> (r: &[u8])
        ensures
            r@ == self@.mac_address,
    {
        self.mac_address.as_slice()
    }

    pub fn mac_frame_counter(&self) -> (r: u32)
        ensures
            r == self@.mac_frame_counter,
    {
        self.mac_frame_counter
    }

    pub fn set_mac_address(&mut self, v: Vec<u8>)
        ensures
            final(self)@ == (PrimeMacFuncParamsView { mac_address: v@, ..old(self)@ }),
    {
        self.mac_address = v;
    }

    pub fn set_mac_frame_counter(&mut self, v: u32)
        ensures
            final(self)@ == (PrimeMacFuncParamsView { mac_frame_counter: v, ..old(self)@ }),
    {
        self.mac_frame_counter = v;
    }

    pub fn class_id(&self) -> (r: u16)
        ensures
            r == 83,
    {
        83
    }

    pub fn logical_name(&self) -> (r: ObisCode)
        ensures
            r == self@.logical_name,
    {
        self.logical_name
    }

    pub fn attribute_count(&self) -> (r: u8)
        ensures
            r == 3,
    {
        3
    }

    pub fn method_count(&self) -> (r: u8)
        ensures
            r == 0,
    {
        0
    }

    /// The value of attribute `attr`, for the A-XDR encoder.
    pub fn attribute_data(&self, attr: u8) -> (r: Option<DlmsData>)
        ensures
            opt_view(r) == self@.attribute(attr),
    {
        match attr {
            1 => Some(logical_name_data(&self.logical_name)),
            2 => Some(DlmsData::OctetString(copy_bytes(self.mac_address.as_slice()))),
            3 => Some(DlmsData::DoubleLongUnsigned(self.mac_frame_counter)),
            _ => None,
        }
    }

    /// Writes attribute `attr` from the value the A-XDR decoder produced
    /// (`None` where decoding failed).
    pub fn apply_attribute(&mut self, attr: u8, decoded: Option<DlmsData>) -> (r: Result<(), CosemObjectError>)
        ensures
            (r, final(self)@) == old(self)@.write(attr, opt_view(decoded)),
    {
        match attr {
            2 => {
                match decoded {
                    Some(DlmsData::OctetString(v)) => {
                        self.mac_address = v;
                        Ok(())
                    },
                    _ => Err(CosemObjectError::InvalidData),
                }
            },
            3 => {
                match decoded {
                    Some(DlmsData::DoubleLongUnsigned(v)) => {
                        self.mac_frame_counter = v;
                        Ok(())
                    },
                    _ => Err(CosemObjectError::InvalidData),
                }
            },
            _ => Err(CosemObjectError::AttributeNotSupported(attr)),
        }
    }
}

/// A value accepted for an attribute is read back unchanged, where it is
/// of the kind that the attribute reports.
pub proof fn lemma_read_back(v: PrimeMacFuncParamsView, attr: u8, d: DataView)
    requires
        v.write(attr, Some(d)).0 is Ok,
        v.attribute(attr) matches Some(cur) && same_kind(d, cur),
    ensures
        v.write(attr, Some(d)).1.attribute(attr) == Some(d),
{
}

} // verus!
