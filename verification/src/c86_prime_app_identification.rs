//! IC86 PRIME NB OFDM PLC application identification.

use vstd::prelude::*;
use crate::cosem::{
    logical_name_data, logical_name_value, opt_view, same_kind, CosemObjectError, DataView,
    DlmsData, ObisCode,
};

verus! {

/// PRIME application identification: name and version.
pub struct PrimeAppIdentification {
    logical_name: ObisCode,
    application_name: String,
    application_version: String,
}

/// The attributes of a [`PrimeAppIdentification`].
pub struct PrimeAppIdentificationView {
    pub logical_name: ObisCode,
    pub application_name: Seq<char>,
    pub application_version: Seq<char>,
}

impl View for PrimeAppIdentification {
    type V = PrimeAppIdentificationView;

    closed spec fn view(&self) -> PrimeAppIdentificationView {
        PrimeAppIdentificationView {
            logical_name: self.logical_name,
            application_name: self.application_name@,
            application_version: self.application_version@,
        }
    }
}

impl PrimeAppIdentificationView {
    /// The value of an attribute, where the class exposes it.
    pub open spec fn attribute(self, attr: u8) -> Option<DataView> {
        match attr {
            1 => Some(logical_name_value(self.logical_name)),
            2 => Some(DataView::VisibleString(self.application_name)),
            3 => Some(DataView::VisibleString(self.application_version)),
            _ => None,
        }
    }

    /// Writing attribute `attr` with the decoded value `d` (`None` where
    /// decoding failed): the outcome and the new attributes.
    pub open spec fn write(self, attr: u8, d: Option<DataView>) -> (Result<(), CosemObjectError>, PrimeAppIdentificationView) {
        match attr {
            2 => match d {
                Some(DataView::VisibleString(s)) => (Ok(()), PrimeAppIdentificationView { application_name: s, ..self }),
                Some(DataView::Utf8String(s)) => (Ok(()), PrimeAppIdentificationView { application_name: s, ..self }),
                _ => (Err(CosemObjectError::InvalidData), self),
            },
            3 => match d {
                Some(DataView::VisibleString(s)) => (Ok(()), PrimeAppIdentificationView { application_version: s, ..self }),
                Some(DataView::Utf8String(s)) => (Ok(()), PrimeAppIdentificationView { application_version: s, ..self }),
                _ => (Err(CosemObjectError::InvalidData), self),
            },
            _ => (Err(CosemObjectError::AttributeNotSupported(attr)), self),
        }
    }
}

impl PrimeAppIdentification {
    pub fn new(logical_name: ObisCode) -> (r: PrimeAppIdentification)
        ensures
            r@ == (PrimeAppIdentificationView {
                logical_name: logical_name,
                application_name: Seq::<char>::empty(),
                application_version: Seq::<char>::empty(),
            }),
    {
        PrimeAppIdentification {
            logical_name: logical_name,
            application_name: String::new(),
            application_version: String::new(),
        }
    }

    pub fn application_name(&self) -> (r: &str)
        ensures
            r@ == self@.application_name,
    {
        self.application_name.as_str()
    }

    pub fn application_version(&self) -> (r: &str)
        ensures
            r@ == self@.application_version,
    {
        self.application_version.as_str()
    }

    pub fn set_application_name(&mut self, v: String)
        ensures
            final(self)@ == (PrimeAppIdentificationView { application_name: v@, ..old(self)@ }),
    {
        self.application_name = v;
    }

    pub fn set_application_version(&mut self, v: String)
        ensures
            final(self)@ == (PrimeAppIdentificationView { application_version: v@, ..old(self)@ }),
    {
        self.application_version = v;
    }

    pub fn class_id(&self) -> (r: u16)
        ensures
            r == 86,
    {
        86
    }

    pub fn logical_name(&self) -> (r: ObisCode)
        ensures
            r == self@.logical_name,
    {
        self.logical_name
    }

    pub fn attribute_count(&self) -> (r: u8)
        ensures
            r == 3,
    {
        3
    }

    pub fn method_count(&self) -> (r: u8)
        ensures
            r == 0,
    {
        0
    }

    /// The value of attribute `attr`, for the A-XDR encoder.
    pub fn attribute_data(&self, attr: u8) -> (r: Option<DlmsData>)
        ensures
            opt_view(r) == self@.attribute(attr),
    {
        match attr {
            1 => Some(logical_name_data(&self.logical_name)),
            2 => Some(DlmsData::VisibleString(self.application_name.clone())),
            3 => Some(DlmsData::VisibleString(self.application_version.clone())),
            _ => None,
        }
    }

    /// Writes attribute `attr` from the value the A-XDR decoder produced
    /// (`None` where decoding failed).
    pub fn apply_attribute(&mut self, attr: u8, decoded: Option<DlmsData>) -> (r: Result<(), CosemObjectError>)
        ensures
            (r, final(self)@) == old(self)@.write(attr, opt_view(decoded)),
    {
        match attr {
            2 => {
                match decoded {
                    Some(DlmsData::VisibleString(s)) => {
                        self.application_name = s;
                        Ok(())
                    },
                    Some(DlmsData::Utf8String(s)) => {
                        self.application_name = s;
                        Ok(())
                    },
                    _ => Err(CosemObjectError::InvalidData),
                }
            },
            3 => {
                match decoded {
                    Some(DlmsData::VisibleString(s)) => {
                        self.application_version = s;
                        Ok(())
                    },
                    Some(DlmsData::Utf8String(s)) => {
                        self.application_version = s;
                        Ok(())
                    },
                    _ => Err(CosemObjectError::InvalidData),
                }
            },
            _ => Err(CosemObjectError::AttributeNotSupported(attr)),
        }
    }
}

/// A value accepted for an attribute is read back unchanged, where it is
/// of the kind that the attribute reports.
pub proof fn lemma_read_back(v: PrimeAppIdentificationView, attr: u8, d: DataView)
    requires
        v.write(attr, Some(d)).0 is Ok,
        v.attribute(attr) matches Some(cur) && same_kind(d, cur),
    ensures
        v.write(attr, Some(d)).1.attribute(attr) == Some(d),
{
}

} // verus!
