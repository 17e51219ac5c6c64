//! IC102 Infrared setup: the optical port's baud rate.

use vstd::prelude::*;
use crate::cosem::{opt_view, CosemObjectError, DataView, DlmsData, ObisCode};

verus! {

/// Infrared setup: the baud rate of the optical port.
pub struct InfraredSetup {
    baudrate: u32,
}

impl View for InfraredSetup {
    type V = u32;

    /// The baud rate.
    closed spec fn view(&self) -> u32 {
        self.baudrate
    }
}

/// The logical name of the infrared setup object, `0-0:45.0.0.255`.
pub open spec fn infrared_logical_name() -> ObisCode {
    ObisCode { a: 0, b: 0, c: 45, d: 0, e: 0, f: 255 }
}

/// The value of an attribute of an infrared setup with baud rate
/// `baudrate`: only the baud rate (2) is exposed.
pub open spec fn infrared_attribute(baudrate: u32, attr: u8) -> Option<DataView> {
    match attr {
        2 => Some(DataView::DoubleLongUnsigned(baudrate)),
        _ => None,
    }
}

impl InfraredSetup {
    /// A port at 9600 baud.
    pub fn new() -> (r: InfraredSetup)
        ensures
            r@ == 9600,
    {
        InfraredSetup { baudrate: 9600 }
    }

    pub fn class_id(&self) -> (r: u16)
        ensures
            r == 102,
    {
        102
    }

    pub fn logical_name(&self) -> (r: ObisCode)
        ensures
            r == infrared_logical_name(),
    {
        ObisCode::new(0, 0, 45, 0, 0, 255)
    }

    pub fn attribute_count(&self) -> (r: u8)
        ensures
            r == 5,
    {
        5
    }

    pub fn method_count(&self) -> (r: u8)
        ensures
            r == 0,
    {
        0
    }

    /// The value of attribute `attr`, for the A-XDR encoder.
    pub fn attribute_data(&self, attr: u8) -> (r: Option<DlmsData>)
        ensures
            opt_view(r) == infrared_attribute(self@, attr),
    {
        match attr {
            2 => Some(DlmsData::DoubleLongUnsigned(self.baudrate)),
            _ => None,
        }
    }

    /// No attribute is writable.
    pub fn apply_attribute(&mut self, attr: u8, decoded: Option<DlmsData>) -> (r: Result<(), CosemObjectError>)
        ensures
            r == Err::<(), CosemObjectError>(CosemObjectError::AttributeNotSupported(attr)),
            final(self)@ == old(self)@,
    {
        Err(CosemObjectError::AttributeNotSupported(attr))
    }
}

} // verus!
