//! Heat cost allocator (class 208).

use vstd::prelude::*;
use crate::cosem::{
    logical_name_data, logical_name_value, opt_view, same_kind, scaler_unit_data,
    scaler_unit_value, view_as_i32, CosemObjectError, DataView, DlmsData, ObisCode,
};

verus! {

/// Heat cost allocator: an allocation value with scaler-unit and integration period.
pub struct HeatCostAllocator {
    logical_name: ObisCode,
    value: DlmsData,
    unit: u8,
    scaler: i8,
    integration_period: u32,
}

/// The attributes of a [`HeatCostAllocator`].
pub struct HeatCostAllocatorView {
    pub logical_name: ObisCode,
    pub value: DataView,
    pub unit: u8,
    pub scaler: i8,
    /// Integration period (seconds).
    pub integration_period: u32,
}

impl View for HeatCostAllocator {
    type V = HeatCostAllocatorView;

    closed spec fn view(&self) -> HeatCostAllocatorView {
        HeatCostAllocatorView {
            logical_name: self.logical_name,
            value: self.value@,
            unit: self.unit,
            scaler: self.scaler,
            integration_period: self.integration_period,
        }
    }
}

impl HeatCostAllocatorView {
    /// The value of an attribute, where the class exposes it.
    pub open spec fn attribute(self, attr: u8) -> Option<DataView> {
        match attr {
            1 => Some(logical_name_value(self.logical_name)),
            2 => Some(self.value),
            3 => Some(scaler_unit_value(self.scaler, self.unit)),
            4 => Some(DataView::DoubleLongUnsigned(self.integration_period)),
            _ => None,
        }
    }

    /// Writing attribute `attr` with the decoded value `d` (`None` where
    /// decoding failed): the outcome and the new attributes.
    pub open spec fn write(self, attr: u8, d: Option<DataView>) -> (Result<(), CosemObjectError>, HeatCostAllocatorView) {
        match attr {
            2 => match d {
                Some(v) => (Ok(()), HeatCostAllocatorView { value: v, ..self }),
                None => (Err(CosemObjectError::InvalidData), self),
            },
            4 => match d {
                Some(v) => match view_as_i32(v) {
                    Some(v) => (Ok(()), HeatCostAllocatorView { integration_period: v as u32, ..self }),
                    None => (Err(CosemObjectError::InvalidData), self),
                },
                None => (Err(CosemObjectError::InvalidData), self),
            },
            _ => (Err(CosemObjectError::AttributeNotSupported(attr)), self),
        }
    }
}

impl HeatCostAllocator {
    pub fn new(logical_name: ObisCode, value: DlmsData) -> (r: HeatCostAllocator)
        ensures
            r@ == (HeatCostAllocatorView {
                logical_name: logical_name,
                value: value@,
                unit: 0,
                scaler: 0,
                integration_period: 60,
            }),
    {
        HeatCostAllocator {
            logical_name: logical_name,
            value: value,
            unit: 0,
            scaler: 0,
            integration_period: 60,
        }
    }

    pub fn value(&self) -> (r: &DlmsData)
        ensures
            r@ == self@.value,
    {
        &self.value
    }

    pub fn integration_period(&self) -> (r: u32)
        ensures
            r == self@.integration_period,
    {
        self.integration_period
    }

    pub fn set_value(&mut self, value: DlmsData)
        ensures
            final(self)@ == (HeatCostAllocatorView { value: value@, ..old(self)@ }),
    {
        self.value = value;
    }

    pub fn set_integration_period(&mut self, period: u32)
        ensures
            final(self)@ == (HeatCostAllocatorView { integration_period: period, ..old(self)@ }),
    {
        self.integration_period = period;
    }

    pub fn class_id(&self) -> (r: u16)
        ensures
            r == 208,
    {
        208
    }

    pub fn logical_name(&self) -> (r: ObisCode)
        ensures
            r == self@.logical_name,
    {
        self.logical_name
    }

    pub fn attribute_count(&self) -> (r: u8)
        ensures
            r == 4,
    {
        4
    }

    pub fn method_count(&self) -> (r: u8)
        ensures
            r == 0,
    {
        0
    }

    /// The value of attribute `attr`, for the A-XDR encoder.
    pub fn attribute_data(&self, attr: u8) -> (r: Option<DlmsData>)
        ensures
            opt_view(r) == self@.attribute(attr),
    {
        match attr {
            1 => Some(logical_name_data(&self.logical_name)),
            2 => Some(self.value.copy()),
            3 => Some(scaler_unit_data(self.scaler, self.unit)),
            4 => Some(DlmsData::DoubleLongUnsigned(self.integration_period)),
            _ => None,
        }
    }

    /// Writes attribute `attr` from the value the A-XDR decoder produced
    /// (`None` where decoding failed).
    pub fn apply_attribute(&mut self, attr: u8, decoded: Option<DlmsData>) -> (r: Result<(), CosemObjectError>)
        ensures
            (r, final(self)@) == old(self)@.write(attr, opt_view(decoded)),
    {
        match attr {
            2 => {
                match decoded {
                    Some(d) => {
                        self.value = d;
                        Ok(())
                    },
                    None => Err(CosemObjectError::InvalidData),
                }
            },
            4 => {
                match decoded {
                    Some(d) => match d.as_i32() {
                        Some(v) => {
                            self.integration_period = v as u32;
                            Ok(())
                        },
                        None => Err(CosemObjectError::InvalidData),
                    },
                    None => Err(CosemObjectError::InvalidData),
                }
            },
            _ => Err(CosemObjectError::AttributeNotSupported(attr)),
        }
    }
}

/// A value accepted for an attribute is read back unchanged, where it is
/// of the kind that the attribute reports.
pub proof fn lemma_read_back(v: HeatCostAllocatorView, attr: u8, d: DataView)
    requires
        v.write(attr, Some(d)).0 is Ok,
        v.attribute(attr) matches Some(cur) && same_kind(d, cur),
    ensures
        v.write(attr, Some(d)).1.attribute(attr) == Some(d),
{
    if let DataView::DoubleLongUnsigned(x) = d {
        assert(((x as i32) as u32) == x) by (bit_vector);
    }
}

} // verus!
