//! IC1 Data: a generic value holder.

use vstd::prelude::*;
use crate::cosem::{
    logical_name_data, logical_name_value, opt_view, same_kind, CosemObjectError, DataView,
    DlmsData, ObisCode,
};

verus! {

/// Data: a single value of any type.
pub struct Data {
    logical_name: ObisCode,
    value: DlmsData,
}

/// The attributes of a [`Data`].
pub struct DataObjectView {
    pub logical_name: ObisCode,
    pub value: DataView,
}

impl View for Data {
    type V = DataObjectView;

    closed spec fn view(&self) -> DataObjectView {
        DataObjectView {
            logical_name: self.logical_name,
            value: self.value@,
        }
    }
}

impl DataObjectView {
    /// The value of an attribute, where the class exposes it.
    pub open spec fn attribute(self, attr: u8) -> Option<DataView> {
        match attr {
            1 => Some(logical_name_value(self.logical_name)),
            2 => Some(self.value),
            _ => None,
        }
    }

    /// Writing attribute `attr` with the decoded value `d` (`None` where
    /// decoding failed): the outcome and the new attributes.
    pub open spec fn write(self, attr: u8, d: Option<DataView>) -> (Result<(), CosemObjectError>, DataObjectView) {
        match attr {
            2 => match d {
                Some(v) => (Ok(()), DataObjectView { value: v, ..self }),
                None => (Err(CosemObjectError::InvalidData), self),
            },
            _ => (Err(CosemObjectError::AttributeNotSupported(attr)), self),
        }
    }
}

impl Data {
    pub fn new(logical_name: ObisCode, value: DlmsData) -> (r: Data)
        ensures
            r@ == (DataObjectView {
                logical_name: logical_name,
                value: value@,
            }),
    {
        Data {
            logical_name: logical_name,
            value: value,
        }
    }

    pub fn value(&self) -> (r: &DlmsData)
        ensures
            r@ == self@.value,
    {
        &self.value
    }

    pub fn set_value(&mut self, value: DlmsData)
        ensures
            final(self)@ == (DataObjectView { value: value@, ..old(self)@ }),
    {
        self.value = value;
    }

    pub fn class_id(&self) -> (r: u16)
        ensures
            r == 1,
    {
        1
    }

    pub fn logical_name(&self) -> (r: ObisCode)
        ensures
            r == self@.logical_name,
    {
        self.logical_name
    }

    pub fn attribute_count(&self) -> (r: u8)
        ensures
            r == 2,
    {
        2
    }

    pub fn method_count(&self) -> (r: u8)
        ensures
            r == 0,
    {
        0
    }

    /// The value of attribute `attr`, for the A-XDR encoder.
    pub fn attribute_data(&self, attr: u8) -> (r: Option<DlmsData>)
        ensures
            opt_view(r) == self@.attribute(attr),
    {
        match attr {
            1 => Some(logical_name_data(&self.logical_name)),
            2 => Some(self.value.copy()),
            _ => None,
        }
    }

    /// Writes attribute `attr` from the value the A-XDR decoder produced
    /// (`None` where decoding failed).
    pub fn apply_attribute(&mut self, attr: u8, decoded: Option<DlmsData>) -> (r: Result<(), CosemObjectError>)
        ensures
            (r, final(self)@) == old(self)@.write(attr, opt_view(decoded)),
    {
        match attr {
            2 => {
                match decoded {
                    Some(d) => {
                        self.value = d;
                        Ok(())
                    },
                    None => Err(CosemObjectError::InvalidData),
                }
            },
            _ => Err(CosemObjectError::AttributeNotSupported(attr)),
        }
    }
}

/// A value accepted for an attribute is read back unchanged, where it is
/// of the kind that the attribute reports.
pub proof fn lemma_read_back(v: DataObjectView, attr: u8, d: DataView)
    requires
        v.write(attr, Some(d)).0 is Ok,
        v.attribute(attr) matches Some(cur) && same_kind(d, cur),
    ensures
        v.write(attr, Some(d)).1.attribute(attr) == Some(d),
{
}

} // verus!
