//! IC80 PRIME NB OFDM PLC LLC SSCS setup.

use vstd::prelude::*;
use crate::cosem::{
    logical_name_data, logical_name_value, opt_view, same_kind, CosemObjectError, DataView,
    DlmsData, ObisCode,
};

verus! {

/// PRIME LLC SSCS setup: convergence sublayer type and enable flag.
pub struct PrimeLlcSscsSetup {
    logical_name: ObisCode,
    sscs_type: u8,
    sscs_enable: bool,
}

/// The attributes of a [`PrimeLlcSscsSetup`].
pub struct PrimeLlcSscsSetupView {
    pub logical_name: ObisCode,
    pub sscs_type: u8,
    pub sscs_enable: bool,
}

impl View for PrimeLlcSscsSetup {
    type V = PrimeLlcSscsSetupView;

    closed spec fn view(&self) -> PrimeLlcSscsSetupView {
        PrimeLlcSscsSetupView {
            logical_name: self.logical_name,
            sscs_type: self.sscs_type,
            sscs_enable: self.sscs_enable,
        }
    }
}

impl PrimeLlcSscsSetupView {
    /// The value of an attribute, where the class exposes it.
    pub open spec fn attribute(self, attr: u8) -> Option<DataView> {
        match attr {
            1 => Some(logical_name_value(self.logical_name)),
            2 => Some(DataView::Unsigned(self.sscs_type)),
            3 => Some(DataView::Boolean(self.sscs_enable)),
            _ => None,
        }
    }

    /// Writing attribute `attr` with the decoded value `d` (`None` where
    /// decoding failed): the outcome and the new attributes.
    pub open spec fn write(self, attr: u8, d: Option<DataView>) -> (Result<(), CosemObjectError>, PrimeLlcSscsSetupView) {
        match attr {
            2 => match d {
                Some(DataView::Unsigned(v)) => (Ok(()), PrimeLlcSscsSetupView { sscs_type: v, ..self }),
                _ => (Err(CosemObjectError::InvalidData), self),
            },
            3 => match d {
                Some(DataView::Boolean(v)) => (Ok(()), PrimeLlcSscsSetupView { sscs_enable: v, ..self }),
                _ => (Err(CosemObjectError::InvalidData), self),
            },
            _ => (Err(CosemObjectError::AttributeNotSupported(attr)), self),
        }
    }
}

impl PrimeLlcSscsSetup {
    pub fn new(logical_name: ObisCode) -> (r: PrimeLlcSscsSetup)
        ensures
            r@ == (PrimeLlcSscsSetupView {
                logical_name: logical_name,
                sscs_type: 0,
                sscs_enable: false,
            }),
    {
        PrimeLlcSscsSetup {
            logical_name: logical_name,
            sscs_type: 0,
            sscs_enable: false,
        }
    }

    pub fn sscs_type(&self) -> (r: u8)
        ensures
            r == self@.sscs_type,
    {
        self.sscs_type
    }

    pub fn sscs_enable(&self) -> (r: bool)
        ensures
            r == self@.sscs_enable,
    {
        self.sscs_enable
    }

    pub fn set_sscs_type(&mut self, v: u8)
        ensures
            final(self)@ == (PrimeLlcSscsSetupView { sscs_type: v, ..old(self)@ }),
    {
        self.sscs_type = v;
    }

    pub fn set_sscs_enable(&mut self, v: bool)
        ensures
            final(self)@ == (PrimeLlcSscsSetupView { sscs_enable: v, ..old(self)@ }),
    {
        self.sscs_enable = v;
    }

    pub fn class_id(&self) -> (r: u16)
        ensures
            r == 80,
    {
        80
    }

    pub fn logical_name(&self) -> (r: ObisCode)
        ensures
            r == self@.logical_name,
    {
        self.logical_name
    }

    pub fn attribute_count(&self) -> (r: u8)
        ensures
            r == 3,
    {
        3
    }

    pub fn method_count(&self) -> (r: u8)
        ensures
            r == 0,
    {
        0
    }

    /// The value of attribute `attr`, for the A-XDR encoder.
    pub fn attribute_data(&self, attr: u8) -> (r: Option<DlmsData>)
        ensures
            opt_view(r) == self@.attribute(attr),
    {
        match attr {
            1 => Some(logical_name_data(&self.logical_name)),
            2 => Some(DlmsData::Unsigned(self.sscs_type)),
            3 => Some(DlmsData::Boolean(self.sscs_enable)),
            _ => None,
        }
    }

    /// Writes attribute `attr` from the value the A-XDR decoder produced
    /// (`None` where decoding failed).
    pub fn apply_attribute(&mut self, attr: u8, decoded: Option<DlmsData>) -> (r: Result<(), CosemObjectError>)
        ensures
            (r, final(self)@) == old(self)@.write(attr, opt_view(decoded)),
    {
        match attr {
            2 => {
                match decoded {
                    Some(DlmsData::Unsigned(v)) => {
                        self.sscs_type = v;
                        Ok(())
                    },
                    _ => Err(CosemObjectError::InvalidData),
                }
            },
            3 => {
                match decoded {
                    Some(DlmsData::Boolean(v)) => {
                        self.sscs_enable = v;
                        Ok(())
                    },
                    _ => Err(CosemObjectError::InvalidData),
                }
            },
            _ => Err(CosemObjectError::AttributeNotSupported(attr)),
        }
    }
}

/// A value accepted for an attribute is read back unchanged, where it is
/// of the kind that the attribute reports.
pub proof fn lemma_read_back(v: PrimeLlcSscsSetupView, attr: u8, d: DataView)
    requires
        v.write(attr, Some(d)).0 is Ok,
        v.attribute(attr) matches Some(cur) && same_kind(d, cur),
    ensures
        v.write(attr, Some(d)).1.attribute(attr) == Some(d),
{
}

} // verus!
