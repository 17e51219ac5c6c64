//! Direct disconnect (class 63).

use vstd::prelude::*;
use crate::cosem::{
    logical_name_data, logical_name_value, opt_view, CosemObjectError, DataView, DlmsData,
    ObisCode,
};

verus! {

/// Direct disconnect: a disconnector with a version number.
pub struct DirectDisconnect {
    logical_name: ObisCode,
    version: u8,
}

/// The attributes of a [`DirectDisconnect`].
pub struct DirectDisconnectView {
    pub logical_name: ObisCode,
    pub version: u8,
}

impl View for DirectDisconnect {
    type V = DirectDisconnectView;

    closed spec fn view(&self) -> DirectDisconnectView {
        DirectDisconnectView {
            logical_name: self.logical_name,
            version: self.version,
        }
    }
}

impl DirectDisconnectView {
    /// The value of an attribute, where the class exposes it.
    pub open spec fn attribute(self, attr: u8) -> Option<DataView> {
        match attr {
            1 => Some(logical_name_value(self.logical_name)),
            _ => None,
        }
    }

    /// Writing attribute `attr` with the decoded value `d` (`None` where
    /// decoding failed): the outcome and the new attributes.
    pub open spec fn write(self, attr: u8, d: Option<DataView>) -> (Result<(), CosemObjectError>, DirectDisconnectView) {
        (Err(CosemObjectError::AttributeNotSupported(attr)), self)
    }
}

impl DirectDisconnect {
    pub fn new(logical_name: ObisCode) -> (r: DirectDisconnect)
        ensures
            r@ == (DirectDisconnectView {
                logical_name: logical_name,
                version: 0,
            }),
    {
        DirectDisconnect {
            logical_name: logical_name,
            version: 0,
        }
    }

    pub fn version(&self) -> (r: u8)
        ensures
            r == self@.version,
    {
        self.version
    }

    pub fn class_id(&self) -> (r: u16)
        ensures
            r == 63,
    {
        63
    }

    pub fn logical_name(&self) -> (r: ObisCode)
        ensures
            r == self@.logical_name,
    {
        self.logical_name
    }

    pub fn attribute_count(&self) -> (r: u8)
        ensures
            r == 4,
    {
        4
    }

    pub fn method_count(&self) -> (r: u8)
        ensures
            r == 1,
    {
        1
    }

    /// The value of attribute `attr`, for the A-XDR encoder.
    pub fn attribute_data(&self, attr: u8) -> (r: Option<DlmsData>)
        ensures
            opt_view(r) == self@.attribute(attr),
    {
        match attr {
            1 => Some(logical_name_data(&self.logical_name)),
            _ => None,
        }
    }

    /// Writes attribute `attr` from the value the A-XDR decoder produced
    /// (`None` where decoding failed).
    pub fn apply_attribute(&mut self, attr: u8, decoded: Option<DlmsData>) -> (r: Result<(), CosemObjectError>)
        ensures
            (r, final(self)@) == old(self)@.write(attr, opt_view(decoded)),
    {
        Err(CosemObjectError::AttributeNotSupported(attr))
    }
}

} // verus!
