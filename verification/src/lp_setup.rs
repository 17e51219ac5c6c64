//! IC100 LP setup: the load profile capture period.

use vstd::prelude::*;
use crate::cosem::{opt_view, CosemObjectError, DataView, DlmsData, ObisCode};

verus! {

/// LP setup: the load profile period.
pub struct LpSetup {
    period: u16,
}

impl View for LpSetup {
    type V = u16;

    /// The period.
    closed spec fn view(&self) -> u16 {
        self.period
    }
}

/// The logical name of the LP setup object, `0-0:43.1.0.255`.
pub open spec fn lp_logical_name() -> ObisCode {
    ObisCode { a: 0, b: 0, c: 43, d: 1, e: 0, f: 255 }
}

/// The value of an attribute of an LP setup with period `period`: only the
/// period (2) is exposed.
pub open spec fn lp_attribute(period: u16, attr: u8) -> Option<DataView> {
    match attr {
        2 => Some(DataView::LongUnsigned(period)),
        _ => None,
    }
}

impl LpSetup {
    /// A period of 60.
    pub fn new() -> (r: LpSetup)
        ensures
            r@ == 60,
    {
        LpSetup { period: 60 }
    }

    pub fn period(&self) -> (r: u16)
        ensures
            r == self@,
    {
        self.period
    }

    pub fn class_id(&self) -> (r: u16)
        ensures
            r == 100,
    {
        100
    }

    pub fn logical_name(&self) -> (r: ObisCode)
        ensures
            r == lp_logical_name(),
    {
        ObisCode::new(0, 0, 43, 1, 0, 255)
    }

    pub fn attribute_count(&self) -> (r: u8)
        ensures
            r == 6,
    {
        6
    }

    pub fn method_count(&self) -> (r: u8)
        ensures
            r == 2,
    {
        2
    }

    /// The value of attribute `attr`, for the A-XDR encoder.
    pub fn attribute_data(&self, attr: u8) -> (r: Option<DlmsData>)
        ensures
            opt_view(r) == lp_attribute(self@, attr),
    {
        match attr {
            2 => Some(DlmsData::LongUnsigned(self.period)),
            _ => None,
        }
    }

    /// No attribute is writable.
    pub fn apply_attribute(&mut self, attr: u8, decoded: Option<DlmsData>) -> (r: Result<(), CosemObjectError>)
        ensures
            r == Err::<(), CosemObjectError>(CosemObjectError::AttributeNotSupported(attr)),
            final(self)@ == old(self)@,
    {
        Err(CosemObjectError::AttributeNotSupported(attr))
    }
}

} // verus!
