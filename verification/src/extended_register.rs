//! IC4 Extended register.

use vstd::prelude::*;
use crate::cosem::{
    logical_name_data, logical_name_value, opt_view, same_kind, scaler_unit_data,
    scaler_unit_value, zero_date_time, CosemObjectError, DataView, DlmsData, ObisCode,
};

verus! {

/// Extended register: a value with scaler-unit, status and capture time.
pub struct ExtendedRegister {
    logical_name: ObisCode,
    value: DlmsData,
    unit: u8,
    scaler: i8,
    status: DlmsData,
    capture_time: DlmsData,
}

/// The attributes of a [`ExtendedRegister`].
pub struct ExtendedRegisterView {
    pub logical_name: ObisCode,
    pub value: DataView,
    pub unit: u8,
    pub scaler: i8,
    pub status: DataView,
    pub capture_time: DataView,
}

impl View for ExtendedRegister {
    type V = ExtendedRegisterView;

    closed spec fn view(&self) -> ExtendedRegisterView {
        ExtendedRegisterView {
            logical_name: self.logical_name,
            value: self.value@,
            unit: self.unit,
            scaler: self.scaler,
            status: self.status@,
            capture_time: self.capture_time@,
        }
    }
}

impl ExtendedRegisterView {
    /// The value of an attribute, where the class exposes it.
    pub open spec fn attribute(self, attr: u8) -> Option<DataView> {
        match attr {
            1 => Some(logical_name_value(self.logical_name)),
            2 => Some(self.value),
            3 => Some(scaler_unit_value(self.scaler, self.unit)),
            4 => Some(self.status),
            5 => Some(self.capture_time),
            _ => None,
        }
    }

    /// Writing attribute `attr` with the decoded value `d` (`None` where
    /// decoding failed): the outcome and the new attributes.
    pub open spec fn write(self, attr: u8, d: Option<DataView>) -> (Result<(), CosemObjectError>, ExtendedRegisterView) {
        match attr {
            2 => match d {
                Some(v) => (Ok(()), ExtendedRegisterView { value: v, ..self }),
                None => (Err(CosemObjectError::InvalidData), self),
            },
            _ => (Err(CosemObjectError::AttributeNotSupported(attr)), self),
        }
    }
}

impl ExtendedRegister {
    pub fn new(logical_name: ObisCode, value: DlmsData) -> (r: ExtendedRegister)
        ensures
            r@ == (ExtendedRegisterView {
                logical_name: logical_name,
                value: value@,
                unit: 0,
                scaler: 0,
                status: DataView::DoubleLongUnsigned(0),
                capture_time: DataView::DateTime(Seq::new(12, |i: int| 0u8)),
            }),
    {
        ExtendedRegister {
            logical_name: logical_name,
            value: value,
            unit: 0,
            scaler: 0,
            status: DlmsData::DoubleLongUnsigned(0),
            capture_time: zero_date_time(),
        }
    }

    pub fn value(&self) -> (r: &DlmsData)
        ensures
            r@ == self@.value,
    {
        &self.value
    }

    pub fn set_value(&mut self, value: DlmsData)
        ensures
            final(self)@ == (ExtendedRegisterView { value: value@, ..old(self)@ }),
    {
        self.value = value;
    }

    pub fn class_id(&self) -> (r: u16)
        ensures
            r == 4,
    {
        4
    }

    pub fn logical_name(&self) -> (r: ObisCode)
        ensures
            r == self@.logical_name,
    {
        self.logical_name
    }

    pub fn attribute_count(&self) -> (r: u8)
        ensures
            r == 5,
    {
        5
    }

    pub fn method_count(&self) -> (r: u8)
        ensures
            r == 0,
    {
        0
    }

    /// The value of attribute `attr`, for the A-XDR encoder.
    pub fn attribute_data(&self, attr: u8) -> (r: Option<DlmsData>)
        ensures
            opt_view(r) == self@.attribute(attr),
    {
        match attr {
            1 => Some(logical_name_data(&self.logical_name)),
            2 => Some(self.value.copy()),
            3 => Some(scaler_unit_data(self.scaler, self.unit)),
            4 => Some(self.status.copy()),
            5 => Some(self.capture_time.copy()),
            _ => None,
        }
    }

    /// Writes attribute `attr` from the value the A-XDR decoder produced
    /// (`None` where decoding failed).
    pub fn apply_attribute(&mut self, attr: u8, decoded: Option<DlmsData>) -> (r: Result<(), CosemObjectError>)
        ensures
            (r, final(self)@) == old(self)@.write(attr, opt_view(decoded)),
    {
        match attr {
            2 => {
                match decoded {
                    Some(d) => {
                        self.value = d;
                        Ok(())
                    },
                    None => Err(CosemObjectError::InvalidData),
                }
            },
            _ => Err(CosemObjectError::AttributeNotSupported(attr)),
        }
    }
}

/// A value accepted for an attribute is read back unchanged, where it is
/// of the kind that the attribute reports.
pub proof fn lemma_read_back(v: ExtendedRegisterView, attr: u8, d: DataView)
    requires
        v.write(attr, Some(d)).0 is Ok,
        v.attribute(attr) matches Some(cur) && same_kind(d, cur),
    ensures
        v.write(attr, Some(d)).1.attribute(attr) == Some(d),
{
}

} // verus!
