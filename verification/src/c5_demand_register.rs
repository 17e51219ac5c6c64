//! IC5 Demand register.

use vstd::prelude::*;
use crate::cosem::{
    logical_name_data, logical_name_value, opt_view, same_kind, scaler_unit_data,
    scaler_unit_value, CosemObjectError, DataView, DlmsData, ObisCode,
};

verus! {

/// Demand register: a value with scaler, unit and integration period.
pub struct DemandRegister {
    logical_name: ObisCode,
    current_value: DlmsData,
    unit: u8,
    scaler: i8,
    period: u16,
    number_of_periods: u8,
}

/// The attributes of a [`DemandRegister`].
pub struct DemandRegisterView {
    pub logical_name: ObisCode,
    pub current_value: DataView,
    pub unit: u8,
    pub scaler: i8,
    /// Integration period (seconds).
    pub period: u16,
    pub number_of_periods: u8,
}

impl View for DemandRegister {
    type V = DemandRegisterView;

    closed spec fn view(&self) -> DemandRegisterView {
        DemandRegisterView {
            logical_name: self.logical_name,
            current_value: self.current_value@,
            unit: self.unit,
            scaler: self.scaler,
            period: self.period,
            number_of_periods: self.number_of_periods,
        }
    }
}

impl DemandRegisterView {
    /// The value of an attribute, where the class exposes it.
    pub open spec fn attribute(self, attr: u8) -> Option<DataView> {
        match attr {
            1 => Some(logical_name_value(self.logical_name)),
            2 => Some(self.current_value),
            3 => Some(scaler_unit_value(self.scaler, self.unit)),
            4 => Some(DataView::DoubleLongUnsigned(self.period as u32)),
            _ => None,
        }
    }

    /// Writing attribute `attr` with the decoded value `d` (`None` where
    /// decoding failed): the outcome and the new attributes.
    pub open spec fn write(self, attr: u8, d: Option<DataView>) -> (Result<(), CosemObjectError>, DemandRegisterView) {
        match attr {
            2 => match d {
                Some(v) => (Ok(()), DemandRegisterView { current_value: v, ..self }),
                None => (Err(CosemObjectError::InvalidData), self),
            },
            _ => (Err(CosemObjectError::AttributeNotSupported(attr)), self),
        }
    }
}

impl DemandRegister {
    pub fn new(logical_name: ObisCode, value: DlmsData) -> (r: DemandRegister)
        ensures
            r@ == (DemandRegisterView {
                logical_name: logical_name,
                current_value: value@,
                unit: 0,
                scaler: 0,
                period: 60,
                number_of_periods: 1,
            }),
    {
        DemandRegister {
            logical_name: logical_name,
            current_value: value,
            unit: 0,
            scaler: 0,
            period: 60,
            number_of_periods: 1,
        }
    }

    pub fn value(&self) -> (r: &DlmsData)
        ensures
            r@ == self@.current_value,
    {
        &self.current_value
    }

    pub fn set_value(&mut self, value: DlmsData)
        ensures
            final(self)@ == (DemandRegisterView { current_value: value@, ..old(self)@ }),
    {
        self.current_value = value;
    }

    pub fn class_id(&self) -> (r: u16)
        ensures
            r == 5,
    {
        5
    }

    pub fn logical_name(&self) -> (r: ObisCode)
        ensures
            r == self@.logical_name,
    {
        self.logical_name
    }

    pub fn attribute_count(&self) -> (r: u8)
        ensures
            r == 7,
    {
        7
    }

    pub fn method_count(&self) -> (r: u8)
        ensures
            r == 0,
    {
        0
    }

    /// The value of attribute `attr`, for the A-XDR encoder.
    pub fn attribute_data(&self, attr: u8) -> (r: Option<DlmsData>)
        ensures
            opt_view(r) == self@.attribute(attr),
    {
        match attr {
            1 => Some(logical_name_data(&self.logical_name)),
            2 => Some(self.current_value.copy()),
            3 => Some(scaler_unit_data(self.scaler, self.unit)),
            4 => Some(DlmsData::DoubleLongUnsigned(self.period as u32)),
            _ => None,
        }
    }

    /// Writes attribute `attr` from the value the A-XDR decoder produced
    /// (`None` where decoding failed).
    pub fn apply_attribute(&mut self, attr: u8, decoded: Option<DlmsData>) -> (r: Result<(), CosemObjectError>)
        ensures
            (r, final(self)@) == old(self)@.write(attr, opt_view(decoded)),
    {
        match attr {
            2 => {
                match decoded {
                    Some(d) => {
                        self.current_value = d;
                        Ok(())
                    },
                    None => Err(CosemObjectError::InvalidData),
                }
            },
            _ => Err(CosemObjectError::AttributeNotSupported(attr)),
        }
    }
}

/// A value accepted for an attribute is read back unchanged, where it is
/// of the kind that the attribute reports.
pub proof fn lemma_read_back(v: DemandRegisterView, attr: u8, d: DataView)
    requires
        v.write(attr, Some(d)).0 is Ok,
        v.attribute(attr) matches Some(cur) && same_kind(d, cur),
    ensures
        v.write(attr, Some(d)).1.attribute(attr) == Some(d),
{
}

} // verus!
