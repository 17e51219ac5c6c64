//! IC30 COSEM data protection.

use vstd::prelude::*;
use crate::cosem::{
    copy_bytes, logical_name_data, logical_name_value, opt_view, same_kind, view_as_octet_string,
    CosemObjectError, DataView, DlmsData, ObisCode,
};

verus! {

/// COSEM data protection: protection parameters for get and set, and the protection buffer.
pub struct CosemDataProtection {
    logical_name: ObisCode,
    protection_parameters_get: Vec<u8>,
    protection_parameters_set: Vec<u8>,
    protection_buffer: Vec<u8>,
}

/// The attributes of a [`CosemDataProtection`].
pub struct CosemDataProtectionView {
    pub logical_name: ObisCode,
    pub protection_parameters_get: Seq<u8>,
    pub protection_parameters_set: Seq<u8>,
    pub protection_buffer: Seq<u8>,
}

impl View for CosemDataProtection {
    type V = CosemDataProtectionView;

    closed spec fn view(&self) -> CosemDataProtectionView {
        CosemDataProtectionView {
            logical_name: self.logical_name,
            protection_parameters_get: self.protection_parameters_get@,
            protection_parameters_set: self.protection_parameters_set@,
            protection_buffer: self.protection_buffer@,
        }
    }
}

impl CosemDataProtectionView {
    /// The value of an attribute, where the class exposes it.
    pub open spec fn attribute(self, attr: u8) -> Option<DataView> {
        match attr {
            1 => Some(logical_name_value(self.logical_name)),
            2 => Some(DataView::OctetString(self.protection_parameters_get)),
            3 => Some(DataView::OctetString(self.protection_parameters_set)),
            4 => Some(DataView::OctetString(self.protection_buffer)),
            _ => None,
        }
    }

    /// Writing attribute `attr` with the decoded value `d` (`None` where
    /// decoding failed): the outcome and the new attributes.
    pub open spec fn write(self, attr: u8, d: Option<DataView>) -> (Result<(), CosemObjectError>, CosemDataProtectionView) {
        match attr {
            2 => match d {
                Some(v) => match view_as_octet_string(v) {
                    Some(v) => (Ok(()), CosemDataProtectionView { protection_parameters_get: v, ..self }),
                    None => (Err(CosemObjectError::InvalidData), self),
                },
                None => (Err(CosemObjectError::InvalidData), self),
            },
            3 => match d {
                Some(v) => match view_as_octet_string(v) {
                    Some(v) => (Ok(()), CosemDataProtectionView { protection_parameters_set: v, ..self }),
                    None => (Err(CosemObjectError::InvalidData), self),
                },
                None => (Err(CosemObjectError::InvalidData), self),
            },
            _ => (Err(CosemObjectError::AttributeNotSupported(attr)), self),
        }
    }
}

impl CosemDataProtection {
    pub fn new(logical_name: ObisCode) -> (r: CosemDataProtection)
        ensures
            r@ == (CosemDataProtectionView {
                logical_name: logical_name,
                protection_parameters_get: Seq::<u8>::empty(),
                protection_parameters_set: Seq::<u8>::empty(),
                protection_buffer: Seq::<u8>::empty(),
            }),
    {
        CosemDataProtection {
            logical_name: logical_name,
            protection_parameters_get: Vec::new(),
            protection_parameters_set: Vec::new(),
            protection_buffer: Vec::new(),
        }
    }

    pub fn protection_parameters_get(&self) -> (r: &[u8])
        ensures
            r@ == self@.protection_parameters_get,
    {
        self.protection_parameters_get.as_slice()
    }

    pub fn protection_parameters_set(&self) -> (r: &[u8])
        ensures
            r@ == self@.protection_parameters_set,
    {
        self.protection_parameters_set.as_slice()
    }

    pub fn protection_buffer(&self) -> (r: &[u8])
        ensures
            r@ == self@.protection_buffer,
    {
        self.protection_buffer.as_slice()
    }

    pub fn set_protection_parameters_get(&mut self, params: Vec<u8>)
        ensures
            final(self)@ == (CosemDataProtectionView { protection_parameters_get: params@, ..old(self)@ }),
    {
        self.protection_parameters_get = params;
    }

    pub fn set_protection_parameters_set(&mut self, params: Vec<u8>)
        ensures
            final(self)@ == (CosemDataProtectionView { protection_parameters_set: params@, ..old(self)@ }),
    {
        self.protection_parameters_set = params;
    }

    pub fn class_id(&self) -> (r: u16)
        ensures
            r == 30,
    {
        30
    }

    pub fn logical_name(&self) -> (r: ObisCode)
        ensures
            r == self@.logical_name,
    {
        self.logical_name
    }

    pub fn attribute_count(&self) -> (r: u8)
        ensures
            r == 5,
    {
        5
    }

    pub fn method_count(&self) -> (r: u8)
        ensures
            r == 3,
    {
        3
    }

    /// The value of attribute `attr`, for the A-XDR encoder.
    pub fn attribute_data(&self, attr: u8) -> (r: Option<DlmsData>)
        ensures
            opt_view(r) == self@.attribute(attr),
    {
        match attr {
            1 => Some(logical_name_data(&self.logical_name)),
            2 => Some(DlmsData::OctetString(copy_bytes(self.protection_parameters_get.as_slice()))),
            3 => Some(DlmsData::OctetString(copy_bytes(self.protection_parameters_set.as_slice()))),
            4 => Some(DlmsData::OctetString(copy_bytes(self.protection_buffer.as_slice()))),
            _ => None,
        }
    }

    /// Writes attribute `attr` from the value the A-XDR decoder produced
    /// (`None` where decoding failed).
    pub fn apply_attribute(&mut self, attr: u8, decoded: Option<DlmsData>) -> (r: Result<(), CosemObjectError>)
        ensures
            (r, final(self)@) == old(self)@.write(attr, opt_view(decoded)),
    {
        match attr {
            2 => {
                match decoded {
                    Some(d) => match d.as_octet_string() {
                        Some(b) => {
                            self.protection_parameters_get = copy_bytes(b);
                            Ok(())
                        },
                        None => Err(CosemObjectError::InvalidData),
                    },
                    None => Err(CosemObjectError::InvalidData),
                }
            },
            3 => {
                match decoded {
                    Some(d) => match d.as_octet_string() {
                        Some(b) => {
                            self.protection_parameters_set = copy_bytes(b);
                            Ok(())
                        },
                        None => Err(CosemObjectError::InvalidData),
                    },
                    None => Err(CosemObjectError::InvalidData),
                }
            },
            _ => Err(CosemObjectError::AttributeNotSupported(attr)),
        }
    }

    /// Invokes method `method_id`: methods 1 to 3 succeed with an empty
    /// reply and change nothing.
    pub fn execute_action(&mut self, method_id: u8, data: &[u8]) -> (r: Result<Vec<u8>, CosemObjectError>)
        ensures
            final(self)@ == old(self)@,
            1 <= method_id <= 3 ==> (r matches Ok(reply) && reply@.len() == 0),
            !(1 <= method_id <= 3) ==> r == Err::<Vec<u8>, CosemObjectError>(CosemObjectError::MethodNotSupported(method_id)),
    {
        if 1 <= method_id && method_id <= 3 {
            Ok(Vec::new())
        } else {
            Err(CosemObjectError::MethodNotSupported(method_id))
        }
    }
}

/// A value accepted for an attribute is read back unchanged, where it is
/// of the kind that the attribute reports.
pub proof fn lemma_read_back(v: CosemDataProtectionView, attr: u8, d: DataView)
    requires
        v.write(attr, Some(d)).0 is Ok,
        v.attribute(attr) matches Some(cur) && same_kind(d, cur),
    ensures
        v.write(attr, Some(d)).1.attribute(attr) == Some(d),
{
}

} // verus!
