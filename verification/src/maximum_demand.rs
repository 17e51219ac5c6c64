//! IC34 Maximum demand register.

use vstd::prelude::*;
use crate::cosem::{
    logical_name_data, logical_name_value, opt_view, same_kind, scaler_unit_data,
    scaler_unit_value, zero_date_time, CosemObjectError, DataView, DlmsData, ObisCode,
};

verus! {

/// Maximum demand register.
pub struct MaximumDemand {
    logical_name: ObisCode,
    value: DlmsData,
    unit: u8,
    scaler: i8,
    status: u32,
    start_time_current: DlmsData,
    capture_time: DlmsData,
    period: u32,
    number_of_periods: u8,
}

/// The attributes of a [`MaximumDemand`].
pub struct MaximumDemandView {
    pub logical_name: ObisCode,
    pub value: DataView,
    pub unit: u8,
    pub scaler: i8,
    pub status: u32,
    pub start_time_current: DataView,
    pub capture_time: DataView,
    /// Integration period (seconds).
    pub period: u32,
    pub number_of_periods: u8,
}

impl View for MaximumDemand {
    type V = MaximumDemandView;

    closed spec fn view(&self) -> MaximumDemandView {
        MaximumDemandView {
            logical_name: self.logical_name,
            value: self.value@,
            unit: self.unit,
            scaler: self.scaler,
            status: self.status,
            start_time_current: self.start_time_current@,
            capture_time: self.capture_time@,
            period: self.period,
            number_of_periods: self.number_of_periods,
        }
    }
}

impl MaximumDemandView {
    /// The value of an attribute, where the class exposes it.
    pub open spec fn attribute(self, attr: u8) -> Option<DataView> {
        match attr {
            1 => Some(logical_name_value(self.logical_name)),
            2 => Some(self.value),
            3 => Some(scaler_unit_value(self.scaler, self.unit)),
            4 => Some(DataView::DoubleLongUnsigned(self.status)),
            5 => Some(self.start_time_current),
            6 => Some(self.capture_time),
            7 => Some(DataView::DoubleLongUnsigned(self.period)),
            8 => Some(DataView::Unsigned(self.number_of_periods)),
            _ => None,
        }
    }

    /// Writing attribute `attr` with the decoded value `d` (`None` where
    /// decoding failed): the outcome and the new attributes.
    pub open spec fn write(self, attr: u8, d: Option<DataView>) -> (Result<(), CosemObjectError>, MaximumDemandView) {
        match attr {
            2 => match d {
                Some(v) => (Ok(()), MaximumDemandView { value: v, ..self }),
                None => (Err(CosemObjectError::InvalidData), self),
            },
            _ => (Err(CosemObjectError::AttributeNotSupported(attr)), self),
        }
    }
}

impl MaximumDemand {
    pub fn new(logical_name: ObisCode, value: DlmsData) -> (r: MaximumDemand)
        ensures
            r@ == (MaximumDemandView {
                logical_name: logical_name,
                value: value@,
                unit: 0,
                scaler: 0,
                status: 0,
                start_time_current: DataView::DateTime(Seq::new(12, |i: int| 0u8)),
                capture_time: DataView::DateTime(Seq::new(12, |i: int| 0u8)),
                period: 60,
                number_of_periods: 1,
            }),
    {
        MaximumDemand {
            logical_name: logical_name,
            value: value,
            unit: 0,
            scaler: 0,
            status: 0,
            start_time_current: zero_date_time(),
            capture_time: zero_date_time(),
            period: 60,
            number_of_periods: 1,
        }
    }

    pub fn value(&self) -> (r: &DlmsData)
        ensures
            r@ == self@.value,
    {
        &self.value
    }

    pub fn set_value(&mut self, value: DlmsData)
        ensures
            final(self)@ == (MaximumDemandView { value: value@, ..old(self)@ }),
    {
        self.value = value;
    }

    pub fn class_id(&self) -> (r: u16)
        ensures
            r == 34,
    {
        34
    }

    pub fn logical_name(&self) -> (r: ObisCode)
        ensures
            r == self@.logical_name,
    {
        self.logical_name
    }

    pub fn attribute_count(&self) -> (r: u8)
        ensures
            r == 8,
    {
        8
    }

    pub fn method_count(&self) -> (r: u8)
        ensures
            r == 0,
    {
        0
    }

    /// The value of attribute `attr`, for the A-XDR encoder.
    pub fn attribute_data(&self, attr: u8) -> (r: Option<DlmsData>)
        ensures
            opt_view(r) == self@.attribute(attr),
    {
        match attr {
            1 => Some(logical_name_data(&self.logical_name)),
            2 => Some(self.value.copy()),
            3 => Some(scaler_unit_data(self.scaler, self.unit)),
            4 => Some(DlmsData::DoubleLongUnsigned(self.status)),
            5 => Some(self.start_time_current.copy()),
            6 => Some(self.capture_time.copy()),
            7 => Some(DlmsData::DoubleLongUnsigned(self.period)),
            8 => Some(DlmsData::Unsigned(self.number_of_periods)),
            _ => None,
        }
    }

    /// Writes attribute `attr` from the value the A-XDR decoder produced
    /// (`None` where decoding failed).
    pub fn apply_attribute(&mut self, attr: u8, decoded: Option<DlmsData>) -> (r: Result<(), CosemObjectError>)
        ensures
            (r, final(self)@) == old(self)@.write(attr, opt_view(decoded)),
    {
        match attr {
            2 => {
                match decoded {
                    Some(d) => {
                        self.value = d;
                        Ok(())
                    },
                    None => Err(CosemObjectError::InvalidData),
                }
            },
            _ => Err(CosemObjectError::AttributeNotSupported(attr)),
        }
    }
}

/// A value accepted for an attribute is read back unchanged, where it is
/// of the kind that the attribute reports.
pub proof fn lemma_read_back(v: MaximumDemandView, attr: u8, d: DataView)
    requires
        v.write(attr, Some(d)).0 is Ok,
        v.attribute(attr) matches Some(cur) && same_kind(d, cur),
    ensures
        v.write(attr, Some(d)).1.attribute(attr) == Some(d),
{
}

} // verus!
