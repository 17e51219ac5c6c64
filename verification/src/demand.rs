//! IC10 Demand: a demand register with status, capture time and periods.

use vstd::prelude::*;
use crate::cosem::{
    logical_name_data, logical_name_value, opt_view, same_kind, scaler_unit_data,
    scaler_unit_value, zero_date_time, CosemObjectError, DataView, DlmsData, ObisCode,
};

verus! {

/// Demand: current value, scaler-unit, status, capture time and integration periods.
pub struct Demand {
    logical_name: ObisCode,
    current_value: DlmsData,
    unit: u8,
    scaler: i8,
    status: u32,
    capture_time: DlmsData,
    period: u32,
    number_of_periods: u8,
}

/// The attributes of a [`Demand`].
pub struct DemandView {
    pub logical_name: ObisCode,
    pub current_value: DataView,
    pub unit: u8,
    pub scaler: i8,
    pub status: u32,
    pub capture_time: DataView,
    /// Integration period (seconds).
    pub period: u32,
    pub number_of_periods: u8,
}

impl View for Demand {
    type V = DemandView;

    closed spec fn view(&self) -> DemandView {
        DemandView {
            logical_name: self.logical_name,
            current_value: self.current_value@,
            unit: self.unit,
            scaler: self.scaler,
            status: self.status,
            capture_time: self.capture_time@,
            period: self.period,
            number_of_periods: self.number_of_periods,
        }
    }
}

impl DemandView {
    /// The value of an attribute, where the class exposes it.
    pub open spec fn attribute(self, attr: u8) -> Option<DataView> {
        match attr {
            1 => Some(logical_name_value(self.logical_name)),
            2 => Some(self.current_value),
            3 => Some(scaler_unit_value(self.scaler, self.unit)),
            4 => Some(DataView::DoubleLongUnsigned(self.status)),
            5 => Some(self.capture_time),
            6 => Some(DataView::DoubleLongUnsigned(self.period)),
            7 => Some(DataView::Unsigned(self.number_of_periods)),
            _ => None,
        }
    }

    /// Writing attribute `attr` with the decoded value `d` (`None` where
    /// decoding failed): the outcome and the new attributes.
    pub open spec fn write(self, attr: u8, d: Option<DataView>) -> (Result<(), CosemObjectError>, DemandView) {
        match attr {
            2 => match d {
                Some(v) => (Ok(()), DemandView { current_value: v, ..self }),
                None => (Err(CosemObjectError::InvalidData), self),
            },
            _ => (Err(CosemObjectError::AttributeNotSupported(attr)), self),
        }
    }
}

impl Demand {
    pub fn new(logical_name: ObisCode, value: DlmsData) -> (r: Demand)
        ensures
            r@ == (DemandView {
                logical_name: logical_name,
                current_value: value@,
                unit: 0,
                scaler: 0,
                status: 0,
                capture_time: DataView::DateTime(Seq::new(12, |i: int| 0u8)),
                period: 60,
                number_of_periods: 1,
            }),
    {
        Demand {
            logical_name: logical_name,
            current_value: value,
            unit: 0,
            scaler: 0,
            status: 0,
            capture_time: zero_date_time(),
            period: 60,
            number_of_periods: 1,
        }
    }

    pub fn value(&self) -> (r: &DlmsData)
        ensures
            r@ == self@.current_value,
    {
        &self.current_value
    }

    pub fn period(&self) -> (r: u32)
        ensures
            r == self@.period,
    {
        self.period
    }

    pub fn set_value(&mut self, value: DlmsData)
        ensures
            final(self)@ == (DemandView { current_value: value@, ..old(self)@ }),
    {
        self.current_value = value;
    }

    pub fn class_id(&self) -> (r: u16)
        ensures
            r == 10,
    {
        10
    }

    pub fn logical_name(&self) -> (r: ObisCode)
        ensures
            r == self@.logical_name,
    {
        self.logical_name
    }

    pub fn attribute_count(&self) -> (r: u8)
        ensures
            r == 7,
    {
        7
    }

    pub fn method_count(&self) -> (r: u8)
        ensures
            r == 0,
    {
        0
    }

    /// The value of attribute `attr`, for the A-XDR encoder.
    pub fn attribute_data(&self, attr: u8) -> (r: Option<DlmsData>)
        ensures
            opt_view(r) == self@.attribute(attr),
    {
        match attr {
            1 => Some(logical_name_data(&self.logical_name)),
            2 => Some(self.current_value.copy()),
            3 => Some(scaler_unit_data(self.scaler, self.unit)),
            4 => Some(DlmsData::DoubleLongUnsigned(self.status)),
            5 => Some(self.capture_time.copy()),
            6 => Some(DlmsData::DoubleLongUnsigned(self.period)),
            7 => Some(DlmsData::Unsigned(self.number_of_periods)),
            _ => None,
        }
    }

    /// Writes attribute `attr` from the value the A-XDR decoder produced
    /// (`None` where decoding failed).
    pub fn apply_attribute(&mut self, attr: u8, decoded: Option<DlmsData>) -> (r: Result<(), CosemObjectError>)
        ensures
            (r, final(self)@) == old(self)@.write(attr, opt_view(decoded)),
    {
        match attr {
            2 => {
                match decoded {
                    Some(d) => {
                        self.current_value = d;
                        Ok(())
                    },
                    None => Err(CosemObjectError::InvalidData),
                }
            },
            _ => Err(CosemObjectError::AttributeNotSupported(attr)),
        }
    }
}

/// A value accepted for an attribute is read back unchanged, where it is
/// of the kind that the attribute reports.
pub proof fn lemma_read_back(v: DemandView, attr: u8, d: DataView)
    requires
        v.write(attr, Some(d)).0 is Ok,
        v.attribute(attr) matches Some(cur) && same_kind(d, cur),
    ensures
        v.write(attr, Some(d)).1.attribute(attr) == Some(d),
{
}

} // verus!
