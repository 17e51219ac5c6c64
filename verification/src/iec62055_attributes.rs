//! IC116 IEC 62055-41 attributes: STS token carrier attributes.

use vstd::prelude::*;
use crate::cosem::{
    logical_name_data, logical_name_value, opt_view, CosemObjectError, DataView, DlmsData,
    ObisCode,
};

verus! {

/// IEC 62055-41 attributes: STS key identification and token carrier.
pub struct Iec62055Attributes {
    logical_name: ObisCode,
    sts_key_identification_no: u64,
    sts_key_revision_no: u32,
    sts_key_expiry_date: DlmsData,
    sts_token_carrier_id: u32,
}

/// The attributes of a [`Iec62055Attributes`].
pub struct Iec62055AttributesView {
    pub logical_name: ObisCode,
    pub sts_key_identification_no: u64,
    pub sts_key_revision_no: u32,
    /// Twelve 0xFF bytes (not specified) until set.
    pub sts_key_expiry_date: DataView,
    pub sts_token_carrier_id: u32,
}

impl View for Iec62055Attributes {
    type V = Iec62055AttributesView;

    closed spec fn view(&self) -> Iec62055AttributesView {
        Iec62055AttributesView {
            logical_name: self.logical_name,
            sts_key_identification_no: self.sts_key_identification_no,
            sts_key_revision_no: self.sts_key_revision_no,
            sts_key_expiry_date: self.sts_key_expiry_date@,
            sts_token_carrier_id: self.sts_token_carrier_id,
        }
    }
}

impl Iec62055AttributesView {
    /// The value of an attribute, where the class exposes it.
    pub open spec fn attribute(self, attr: u8) -> Option<DataView> {
        match attr {
            1 => Some(logical_name_value(self.logical_name)),
            2 => Some(DataView::DoubleLongUnsigned(self.sts_key_identification_no as u32)),
            3 => Some(DataView::DoubleLongUnsigned(self.sts_key_revision_no)),
            _ => None,
        }
    }

    /// Writing attribute `attr` with the decoded value `d` (`None` where
    /// decoding failed): the outcome and the new attributes.
    pub open spec fn write(self, attr: u8, d: Option<DataView>) -> (Result<(), CosemObjectError>, Iec62055AttributesView) {
        (Err(CosemObjectError::AttributeNotSupported(attr)), self)
    }
}

impl Iec62055Attributes {
    pub fn new(logical_name: ObisCode) -> (r: Iec62055Attributes)
        ensures
            r@ == (Iec62055AttributesView {
                logical_name: logical_name,
                sts_key_identification_no: 0,
                sts_key_revision_no: 0,
                sts_key_expiry_date: DataView::OctetString(Seq::new(12, |i: int| 0xFFu8)),
                sts_token_carrier_id: 0,
            }),
    {
        let mut bytes: Vec<u8> = Vec::new();
        let mut i: usize = 0;
        while i < 12
            invariant
                i <= 12,
                bytes@ == Seq::new(i as nat, |j: int| 0xFFu8),
            decreases 12 - i,
        {
            bytes.push(0xFFu8);
            i = i + 1;
            assert(bytes@ =~= Seq::new(i as nat, |j: int| 0xFFu8));
        }
        let expiry = DlmsData::OctetString(bytes);
        Iec62055Attributes {
            logical_name: logical_name,
            sts_key_identification_no: 0,
            sts_key_revision_no: 0,
            sts_key_expiry_date: expiry,
            sts_token_carrier_id: 0,
        }
    }

    pub fn key_id(&self) -> (r: u64)
        ensures
            r == self@.sts_key_identification_no,
    {
        self.sts_key_identification_no
    }

    pub fn set_key_id(&mut self, id: u64)
        ensures
            final(self)@ == (Iec62055AttributesView { sts_key_identification_no: id, ..old(self)@ }),
    {
        self.sts_key_identification_no = id;
    }

    pub fn class_id(&self) -> (r: u16)
        ensures
            r == 116,
    {
        116
    }

    pub fn logical_name(&self) -> (r: ObisCode)
        ensures
            r == self@.logical_name,
    {
        self.logical_name
    }

    pub fn attribute_count(&self) -> (r: u8)
        ensures
            r == 6,
    {
        6
    }

    pub fn method_count(&self) -> (r: u8)
        ensures
            r == 0,
    {
        0
    }

    /// The value of attribute `attr`, for the A-XDR encoder.
    pub fn attribute_data(&self, attr: u8) -> (r: Option<DlmsData>)
        ensures
            opt_view(r) == self@.attribute(attr),
    {
        match attr {
            1 => Some(logical_name_data(&self.logical_name)),
            2 => Some(DlmsData::DoubleLongUnsigned(self.sts_key_identification_no as u32)),
            3 => Some(DlmsData::DoubleLongUnsigned(self.sts_key_revision_no)),
            _ => None,
        }
    }

    /// Writes attribute `attr` from the value the A-XDR decoder produced
    /// (`None` where decoding failed).
    pub fn apply_attribute(&mut self, attr: u8, decoded: Option<DlmsData>) -> (r: Result<(), CosemObjectError>)
        ensures
            (r, final(self)@) == old(self)@.write(attr, opt_view(decoded)),
    {
        Err(CosemObjectError::AttributeNotSupported(attr))
    }
}

} // verus!
