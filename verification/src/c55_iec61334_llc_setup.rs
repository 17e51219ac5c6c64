//! IC55 IEC 61334-4-32 LLC setup.

use vstd::prelude::*;
use crate::cosem::{
    logical_name_data, logical_name_value, opt_view, same_kind, CosemObjectError, DataView,
    DlmsData, ObisCode,
};

verus! {

/// IEC 61334-4-32 LLC setup: which LLC types are enabled.
pub struct Iec61334LlcSetup {
    logical_name: ObisCode,
    llc_type_1_enable: bool,
    llc_type_2_enable: bool,
}

/// The attributes of a [`Iec61334LlcSetup`].
pub struct Iec61334LlcSetupView {
    pub logical_name: ObisCode,
    pub llc_type_1_enable: bool,
    pub llc_type_2_enable: bool,
}

impl View for Iec61334LlcSetup {
    type V = Iec61334LlcSetupView;

    closed spec fn view(&self) -> Iec61334LlcSetupView {
        Iec61334LlcSetupView {
            logical_name: self.logical_name,
            llc_type_1_enable: self.llc_type_1_enable,
            llc_type_2_enable: self.llc_type_2_enable,
        }
    }
}

impl Iec61334LlcSetupView {
    /// The value of an attribute, where the class exposes it.
    pub open spec fn attribute(self, attr: u8) -> Option<DataView> {
        match attr {
            1 => Some(logical_name_value(self.logical_name)),
            2 => Some(DataView::Boolean(self.llc_type_1_enable)),
            3 => Some(DataView::Boolean(self.llc_type_2_enable)),
            _ => None,
        }
    }

    /// Writing attribute `attr` with the decoded value `d` (`None` where
    /// decoding failed): the outcome and the new attributes.
    pub open spec fn write(self, attr: u8, d: Option<DataView>) -> (Result<(), CosemObjectError>, Iec61334LlcSetupView) {
        match attr {
            2 => match d {
                Some(DataView::Boolean(v)) => (Ok(()), Iec61334LlcSetupView { llc_type_1_enable: v, ..self }),
                _ => (Err(CosemObjectError::InvalidData), self),
            },
            3 => match d {
                Some(DataView::Boolean(v)) => (Ok(()), Iec61334LlcSetupView { llc_type_2_enable: v, ..self }),
                _ => (Err(CosemObjectError::InvalidData), self),
            },
            _ => (Err(CosemObjectError::AttributeNotSupported(attr)), self),
        }
    }
}

impl Iec61334LlcSetup {
    pub fn new(logical_name: ObisCode) -> (r: Iec61334LlcSetup)
        ensures
            r@ == (Iec61334LlcSetupView {
                logical_name: logical_name,
                llc_type_1_enable: false,
                llc_type_2_enable: false,
            }),
    {
        Iec61334LlcSetup {
            logical_name: logical_name,
            llc_type_1_enable: false,
            llc_type_2_enable: false,
        }
    }

    pub fn llc_type_1_enable(&self) -> (r: bool)
        ensures
            r == self@.llc_type_1_enable,
    {
        self.llc_type_1_enable
    }

    pub fn llc_type_2_enable(&self) -> (r: bool)
        ensures
            r == self@.llc_type_2_enable,
    {
        self.llc_type_2_enable
    }

    pub fn set_llc_type_1_enable(&mut self, v: bool)
        ensures
            final(self)@ == (Iec61334LlcSetupView { llc_type_1_enable: v, ..old(self)@ }),
    {
        self.llc_type_1_enable = v;
    }

    pub fn set_llc_type_2_enable(&mut self, v: bool)
        ensures
            final(self)@ == (Iec61334LlcSetupView { llc_type_2_enable: v, ..old(self)@ }),
    {
        self.llc_type_2_enable = v;
    }

    pub fn class_id(&self) -> (r: u16)
        ensures
            r == 55,
    {
        55
    }

    pub fn logical_name(&self) -> (r: ObisCode)
        ensures
            r == self@.logical_name,
    {
        self.logical_name
    }

    pub fn attribute_count(&self) -> (r: u8)
        ensures
            r == 3,
    {
        3
    }

    pub fn method_count(&self) -> (r: u8)
        ensures
            r == 0,
    {
        0
    }

    /// The value of attribute `attr`, for the A-XDR encoder.
    pub fn attribute_data(&self, attr: u8) -> (r: Option<DlmsData>)
        ensures
            opt_view(r) == self@.attribute(attr),
    {
        match attr {
            1 => Some(logical_name_data(&self.logical_name)),
            2 => Some(DlmsData::Boolean(self.llc_type_1_enable)),
            3 => Some(DlmsData::Boolean(self.llc_type_2_enable)),
            _ => None,
        }
    }

    /// Writes attribute `attr` from the value the A-XDR decoder produced
    /// (`None` where decoding failed).
    pub fn apply_attribute(&mut self, attr: u8, decoded: Option<DlmsData>) -> (r: Result<(), CosemObjectError>)
        ensures
            (r, final(self)@) == old(self)@.write(attr, opt_view(decoded)),
    {
        match attr {
            2 => {
                match decoded {
                    Some(DlmsData::Boolean(v)) => {
                        self.llc_type_1_enable = v;
                        Ok(())
                    },
                    _ => Err(CosemObjectError::InvalidData),
                }
            },
            3 => {
                match decoded {
                    Some(DlmsData::Boolean(v)) => {
                        self.llc_type_2_enable = v;
                        Ok(())
                    },
                    _ => Err(CosemObjectError::InvalidData),
                }
            },
            _ => Err(CosemObjectError::AttributeNotSupported(attr)),
        }
    }
}

/// A value accepted for an attribute is read back unchanged, where it is
/// of the kind that the attribute reports.
pub proof fn lemma_read_back(v: Iec61334LlcSetupView, attr: u8, d: DataView)
    requires
        v.write(attr, Some(d)).0 is Ok,
        v.attribute(attr) matches Some(cur) && same_kind(d, cur),
    ensures
        v.write(attr, Some(d)).1.attribute(attr) == Some(d),
{
}

} // verus!
