//! IC62 Compact data: a captured buffer with its capture time.

use vstd::prelude::*;
use crate::cosem::{
    copy_bytes, logical_name_data, logical_name_value, opt_view, same_kind, view_as_octet_string,
    CosemObjectError, DataView, DlmsData, ObisCode,
};

verus! {

/// Compact data: a byte buffer and the time it was captured.
pub struct CompactData {
    logical_name: ObisCode,
    buffer: Vec<u8>,
    capture_time: DlmsData,
}

/// The attributes of a [`CompactData`].
pub struct CompactDataView {
    pub logical_name: ObisCode,
    pub buffer: Seq<u8>,
    /// Eight zero bytes until set.
    pub capture_time: DataView,
}

impl View for CompactData {
    type V = CompactDataView;

    closed spec fn view(&self) -> CompactDataView {
        CompactDataView {
            logical_name: self.logical_name,
            buffer: self.buffer@,
            capture_time: self.capture_time@,
        }
    }
}

impl CompactDataView {
    /// The value of an attribute, where the class exposes it.
    pub open spec fn attribute(self, attr: u8) -> Option<DataView> {
        match attr {
            1 => Some(logical_name_value(self.logical_name)),
            2 => Some(DataView::OctetString(self.buffer)),
            3 => Some(self.capture_time),
            _ => None,
        }
    }

    /// Writing attribute `attr` with the decoded value `d` (`None` where
    /// decoding failed): the outcome and the new attributes.
    pub open spec fn write(self, attr: u8, d: Option<DataView>) -> (Result<(), CosemObjectError>, CompactDataView) {
        match attr {
            2 => match d {
                Some(v) => match view_as_octet_string(v) {
                    Some(v) => (Ok(()), CompactDataView { buffer: v, ..self }),
                    None => (Err(CosemObjectError::InvalidData), self),
                },
                None => (Err(CosemObjectError::InvalidData), self),
            },
            _ => (Err(CosemObjectError::AttributeNotSupported(attr)), self),
        }
    }
}

impl CompactData {
    pub fn new(logical_name: ObisCode) -> (r: CompactData)
        ensures
            r@ == (CompactDataView {
                logical_name: logical_name,
                buffer: Seq::<u8>::empty(),
                capture_time: DataView::OctetString(seq![0u8, 0u8, 0u8, 0u8, 0u8, 0u8, 0u8, 0u8]),
            }),
    {
        CompactData {
            logical_name: logical_name,
            buffer: Vec::new(),
            capture_time: DlmsData::OctetString(vec![0u8, 0u8, 0u8, 0u8, 0u8, 0u8, 0u8, 0u8]),
        }
    }

    pub fn buffer(&self) -> (r: &[u8])
        ensures
            r@ == self@.buffer,
    {
        self.buffer.as_slice()
    }

    pub fn capture_time(&self) -> (r: &DlmsData)
        ensures
            r@ == self@.capture_time,
    {
        &self.capture_time
    }

    pub fn set_buffer(&mut self, buffer: Vec<u8>)
        ensures
            final(self)@ == (CompactDataView { buffer: buffer@, ..old(self)@ }),
    {
        self.buffer = buffer;
    }

    pub fn set_capture_time(&mut self, time: DlmsData)
        ensures
            final(self)@ == (CompactDataView { capture_time: time@, ..old(self)@ }),
    {
        self.capture_time = time;
    }

    pub fn class_id(&self) -> (r: u16)
        ensures
            r == 62,
    {
        62
    }

    pub fn logical_name(&self) -> (r: ObisCode)
        ensures
            r == self@.logical_name,
    {
        self.logical_name
    }

    pub fn attribute_count(&self) -> (r: u8)
        ensures
            r == 4,
    {
        4
    }

    pub fn method_count(&self) -> (r: u8)
        ensures
            r == 0,
    {
        0
    }

    /// The value of attribute `attr`, for the A-XDR encoder.
    pub fn attribute_data(&self, attr: u8) -> (r: Option<DlmsData>)
        ensures
            opt_view(r) == self@.attribute(attr),
    {
        match attr {
            1 => Some(logical_name_data(&self.logical_name)),
            2 => Some(DlmsData::OctetString(copy_bytes(self.buffer.as_slice()))),
            3 => Some(self.capture_time.copy()),
            _ => None,
        }
    }

    /// Writes attribute `attr` from the value the A-XDR decoder produced
    /// (`None` where decoding failed).
    pub fn apply_attribute(&mut self, attr: u8, decoded: Option<DlmsData>) -> (r: Result<(), CosemObjectError>)
        ensures
            (r, final(self)@) == old(self)@.write(attr, opt_view(decoded)),
    {
        match attr {
            2 => {
                match decoded {
                    Some(d) => match d.as_octet_string() {
                        Some(b) => {
                            self.buffer = copy_bytes(b);
                            Ok(())
                        },
                        None => Err(CosemObjectError::InvalidData),
                    },
                    None => Err(CosemObjectError::InvalidData),
                }
            },
            _ => Err(CosemObjectError::AttributeNotSupported(attr)),
        }
    }
}

/// A value accepted for an attribute is read back unchanged, where it is
/// of the kind that the attribute reports.
pub proof fn lemma_read_back(v: CompactDataView, attr: u8, d: DataView)
    requires
        v.write(attr, Some(d)).0 is Ok,
        v.attribute(attr) matches Some(cur) && same_kind(d, cur),
    ensures
        v.write(attr, Some(d)).1.attribute(attr) == Some(d),
{
}

} // verus!
