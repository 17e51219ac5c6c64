//! IC58 ISO/IEC 8802-2 LLC type 2 setup.

use vstd::prelude::*;
use crate::cosem::{
    logical_name_data, logical_name_value, opt_view, same_kind, CosemObjectError, DataView,
    DlmsData, ObisCode,
};

verus! {

/// LLC type 2 setup: enable flag and window size.
pub struct LlcType2Setup {
    logical_name: ObisCode,
    llc_type_2_enable: bool,
    window_size: u16,
}

/// The attributes of a [`LlcType2Setup`].
pub struct LlcType2SetupView {
    pub logical_name: ObisCode,
    pub llc_type_2_enable: bool,
    pub window_size: u16,
}

impl View for LlcType2Setup {
    type V = LlcType2SetupView;

    closed spec fn view(&self) -> LlcType2SetupView {
        LlcType2SetupView {
            logical_name: self.logical_name,
            llc_type_2_enable: self.llc_type_2_enable,
            window_size: self.window_size,
        }
    }
}

impl LlcType2SetupView {
    /// The value of an attribute, where the class exposes it.
    pub open spec fn attribute(self, attr: u8) -> Option<DataView> {
        match attr {
            1 => Some(logical_name_value(self.logical_name)),
            2 => Some(DataView::Boolean(self.llc_type_2_enable)),
            3 => Some(DataView::LongUnsigned(self.window_size)),
            _ => None,
        }
    }

    /// Writing attribute `attr` with the decoded value `d` (`None` where
    /// decoding failed): the outcome and the new attributes.
    pub open spec fn write(self, attr: u8, d: Option<DataView>) -> (Result<(), CosemObjectError>, LlcType2SetupView) {
        match attr {
            2 => match d {
                Some(DataView::Boolean(v)) => (Ok(()), LlcType2SetupView { llc_type_2_enable: v, ..self }),
                _ => (Err(CosemObjectError::InvalidData), self),
            },
            3 => match d {
                Some(DataView::LongUnsigned(v)) => (Ok(()), LlcType2SetupView { window_size: v, ..self }),
                _ => (Err(CosemObjectError::InvalidData), self),
            },
            _ => (Err(CosemObjectError::AttributeNotSupported(attr)), self),
        }
    }
}

impl LlcType2Setup {
    pub fn new(logical_name: ObisCode) -> (r: LlcType2Setup)
        ensures
            r@ == (LlcType2SetupView {
                logical_name: logical_name,
                llc_type_2_enable: false,
                window_size: 0,
            }),
    {
        LlcType2Setup {
            logical_name: logical_name,
            llc_type_2_enable: false,
            window_size: 0,
        }
    }

    pub fn llc_type_2_enable(&self) -> (r: bool)
        ensures
            r == self@.llc_type_2_enable,
    {
        self.llc_type_2_enable
    }

    pub fn window_size(&self) -> (r: u16)
        ensures
            r == self@.window_size,
    {
        self.window_size
    }

    pub fn set_llc_type_2_enable(&mut self, v: bool)
        ensures
            final(self)@ == (LlcType2SetupView { llc_type_2_enable: v, ..old(self)@ }),
    {
        self.llc_type_2_enable = v;
    }

    pub fn set_window_size(&mut self, v: u16)
        ensures
            final(self)@ == (LlcType2SetupView { window_size: v, ..old(self)@ }),
    {
        self.window_size = v;
    }

    pub fn class_id(&self) -> (r: u16)
        ensures
            r == 58,
    {
        58
    }

    pub fn logical_name(&self) -> (r: ObisCode)
        ensures
            r == self@.logical_name,
    {
        self.logical_name
    }

    pub fn attribute_count(&self) -> (r: u8)
        ensures
            r == 3,
    {
        3
    }

    pub fn method_count(&self) -> (r: u8)
        ensures
            r == 0,
    {
        0
    }

    /// The value of attribute `attr`, for the A-XDR encoder.
    pub fn attribute_data(&self, attr: u8) -> (r: Option<DlmsData>)
        ensures
            opt_view(r) == self@.attribute(attr),
    {
        match attr {
            1 => Some(logical_name_data(&self.logical_name)),
            2 => Some(DlmsData::Boolean(self.llc_type_2_enable)),
            3 => Some(DlmsData::LongUnsigned(self.window_size)),
            _ => None,
        }
    }

    /// Writes attribute `attr` from the value the A-XDR decoder produced
    /// (`None` where decoding failed).
    pub fn apply_attribute(&mut self, attr: u8, decoded: Option<DlmsData>) -> (r: Result<(), CosemObjectError>)
        ensures
            (r, final(self)@) == old(self)@.write(attr, opt_view(decoded)),
    {
        match attr {
            2 => {
                match decoded {
                    Some(DlmsData::Boolean(v)) => {
                        self.llc_type_2_enable = v;
                        Ok(())
                    },
                    _ => Err(CosemObjectError::InvalidData),
                }
            },
            3 => {
                match decoded {
                    Some(DlmsData::LongUnsigned(v)) => {
                        self.window_size = v;
                        Ok(())
                    },
                    _ => Err(CosemObjectError::InvalidData),
                }
            },
            _ => Err(CosemObjectError::AttributeNotSupported(attr)),
        }
    }
}

/// A value accepted for an attribute is read back unchanged, where it is
/// of the kind that the attribute reports.
pub proof fn lemma_read_back(v: LlcType2SetupView, attr: u8, d: DataView)
    requires
        v.write(attr, Some(d)).0 is Ok,
        v.attribute(attr) matches Some(cur) && same_kind(d, cur),
    ensures
        v.write(attr, Some(d)).1.attribute(attr) == Some(d),
{
}

} // verus!
