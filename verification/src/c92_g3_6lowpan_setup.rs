//! IC92 G3-PLC 6LoWPAN adaptation layer setup.

use vstd::prelude::*;
use crate::cosem::{
    logical_name_data, logical_name_value, opt_view, same_kind, CosemObjectError, DataView,
    DlmsData, ObisCode,
};

verus! {

/// G3-PLC 6LoWPAN setup: enable flag and MTU.
pub struct G36LoWPANSetup {
    logical_name: ObisCode,
    lowpan_enable: bool,
    lowpan_mtu: u16,
}

/// The attributes of a [`G36LoWPANSetup`].
pub struct G36LoWPANSetupView {
    pub logical_name: ObisCode,
    pub lowpan_enable: bool,
    pub lowpan_mtu: u16,
}

impl View for G36LoWPANSetup {
    type V = G36LoWPANSetupView;

    closed spec fn view(&self) -> G36LoWPANSetupView {
        G36LoWPANSetupView {
            logical_name: self.logical_name,
            lowpan_enable: self.lowpan_enable,
            lowpan_mtu: self.lowpan_mtu,
        }
    }
}

impl G36LoWPANSetupView {
    /// The value of an attribute, where the class exposes it.
    pub open spec fn attribute(self, attr: u8) -> Option<DataView> {
        match attr {
            1 => Some(logical_name_value(self.logical_name)),
            2 => Some(DataView::Boolean(self.lowpan_enable)),
            3 => Some(DataView::LongUnsigned(self.lowpan_mtu)),
            _ => None,
        }
    }

    /// Writing attribute `attr` with the decoded value `d` (`None` where
    /// decoding failed): the outcome and the new attributes.
    pub open spec fn write(self, attr: u8, d: Option<DataView>) -> (Result<(), CosemObjectError>, G36LoWPANSetupView) {
        match attr {
            2 => match d {
                Some(DataView::Boolean(v)) => (Ok(()), G36LoWPANSetupView { lowpan_enable: v, ..self }),
                _ => (Err(CosemObjectError::InvalidData), self),
            },
            3 => match d {
                Some(DataView::LongUnsigned(v)) => (Ok(()), G36LoWPANSetupView { lowpan_mtu: v, ..self }),
                _ => (Err(CosemObjectError::InvalidData), self),
            },
            _ => (Err(CosemObjectError::AttributeNotSupported(attr)), self),
        }
    }
}

impl G36LoWPANSetup {
    pub fn new(logical_name: ObisCode) -> (r: G36LoWPANSetup)
        ensures
            r@ == (G36LoWPANSetupView {
                logical_name: logical_name,
                lowpan_enable: false,
                lowpan_mtu: 0,
            }),
    {
        G36LoWPANSetup {
            logical_name: logical_name,
            lowpan_enable: false,
            lowpan_mtu: 0,
        }
    }

    pub fn lowpan_enable(&self) -> (r: bool)
        ensures
            r == self@.lowpan_enable,
    {
        self.lowpan_enable
    }

    pub fn lowpan_mtu(&self) -> (r: u16)
        ensures
            r == self@.lowpan_mtu,
    {
        self.lowpan_mtu
    }

    pub fn set_lowpan_enable(&mut self, v: bool)
        ensures
            final(self)@ == (G36LoWPANSetupView { lowpan_enable: v, ..old(self)@ }),
    {
        self.lowpan_enable = v;
    }

    pub fn set_lowpan_mtu(&mut self, v: u16)
        ensures
            final(self)@ == (G36LoWPANSetupView { lowpan_mtu: v, ..old(self)@ }),
    {
        self.lowpan_mtu = v;
    }

    pub fn class_id(&self) -> (r: u16)
        ensures
            r == 92,
    {
        92
    }

    pub fn logical_name(&self) -> (r: ObisCode)
        ensures
            r == self@.logical_name,
    {
        self.logical_name
    }

    pub fn attribute_count(&self) -> (r: u8)
        ensures
            r == 3,
    {
        3
    }

    pub fn method_count(&self) -> (r: u8)
        ensures
            r == 0,
    {
        0
    }

    /// The value of attribute `attr`, for the A-XDR encoder.
    pub fn attribute_data(&self, attr: u8) -> (r: Option<DlmsData>)
        ensures
            opt_view(r) == self@.attribute(attr),
    {
        match attr {
            1 => Some(logical_name_data(&self.logical_name)),
            2 => Some(DlmsData::Boolean(self.lowpan_enable)),
            3 => Some(DlmsData::LongUnsigned(self.lowpan_mtu)),
            _ => None,
        }
    }

    /// Writes attribute `attr` from the value the A-XDR decoder produced
    /// (`None` where decoding failed).
    pub fn apply_attribute(&mut self, attr: u8, decoded: Option<DlmsData>) -> (r: Result<(), CosemObjectError>)
        ensures
            (r, final(self)@) == old(self)@.write(attr, opt_view(decoded)),
    {
        match attr {
            2 => {
                match decoded {
                    Some(DlmsData::Boolean(v)) => {
                        self.lowpan_enable = v;
                        Ok(())
                    },
                    _ => Err(CosemObjectError::InvalidData),
                }
            },
            3 => {
                match decoded {
                    Some(DlmsData::LongUnsigned(v)) => {
                        self.lowpan_mtu = v;
                        Ok(())
                    },
                    _ => Err(CosemObjectError::InvalidData),
                }
            },
            _ => Err(CosemObjectError::AttributeNotSupported(attr)),
        }
    }
}

/// A value accepted for an attribute is read back unchanged, where it is
/// of the kind that the attribute reports.
pub proof fn lemma_read_back(v: G36LoWPANSetupView, attr: u8, d: DataView)
    requires
        v.write(attr, Some(d)).0 is Ok,
        v.attribute(attr) matches Some(cur) && same_kind(d, cur),
    ensures
        v.write(attr, Some(d)).1.attribute(attr) == Some(d),
{
}

} // verus!
