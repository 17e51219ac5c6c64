//! Image transfer (class 18): firmware image transfer parameters and status.

use vstd::prelude::*;
use crate::cosem::{copy_bytes, logical_name_data, logical_name_value, opt_view, CosemObjectError, DataView, DlmsData, ObisCode};

verus! {

/// The stage of an image transfer.
#[derive(Debug, Clone, Copy, PartialEq, Eq, Structural)]
pub enum ImageTransferStatus {
    Idle,
    Initiated,
    InitiatedForVerifying,
    VerifyingInitiated,
    VerificationFailed,
    VerificationSuccessful,
    ImageActivated,
    ImageNotActivated,
}

/// The code of a status (0 to 7).
pub open spec fn status_code(s: ImageTransferStatus) -> u8 {
    match s {
        ImageTransferStatus::Idle => 0,
        ImageTransferStatus::Initiated => 1,
        ImageTransferStatus::InitiatedForVerifying => 2,
        ImageTransferStatus::VerifyingInitiated => 3,
        ImageTransferStatus::VerificationFailed => 4,
        ImageTransferStatus::VerificationSuccessful => 5,
        ImageTransferStatus::ImageActivated => 6,
        ImageTransferStatus::ImageNotActivated => 7,
    }
}

/// The status for a code, where it is one of the eight.
pub open spec fn status_of(v: u8) -> Option<ImageTransferStatus> {
    match v {
        0 => Some(ImageTransferStatus::Idle),
        1 => Some(ImageTransferStatus::Initiated),
        2 => Some(ImageTransferStatus::InitiatedForVerifying),
        3 => Some(ImageTransferStatus::VerifyingInitiated),
        4 => Some(ImageTransferStatus::VerificationFailed),
        5 => Some(ImageTransferStatus::VerificationSuccessful),
        6 => Some(ImageTransferStatus::ImageActivated),
        7 => Some(ImageTransferStatus::ImageNotActivated),
        _ => None,
    }
}

impl ImageTransferStatus {
    /// The code of this status.
    pub fn to_u8(self) -> (r: u8)
        ensures
            r == status_code(self),
    {
        match self {
            ImageTransferStatus::Idle => 0,
            ImageTransferStatus::Initiated => 1,
            ImageTransferStatus::InitiatedForVerifying => 2,
            ImageTransferStatus::VerifyingInitiated => 3,
            ImageTransferStatus::VerificationFailed => 4,
            ImageTransferStatus::VerificationSuccessful => 5,
            ImageTransferStatus::ImageActivated => 6,
            ImageTransferStatus::ImageNotActivated => 7,
        }
    }
}

fn status_from_code(v: u8) -> (r: Option<ImageTransferStatus>)
    ensures
        r == status_of(v),
{
    match v {
        0 => Some(ImageTransferStatus::Idle),
        1 => Some(ImageTransferStatus::Initiated),
        2 => Some(ImageTransferStatus::InitiatedForVerifying),
        3 => Some(ImageTransferStatus::VerifyingInitiated),
        4 => Some(ImageTransferStatus::VerificationFailed),
        5 => Some(ImageTransferStatus::VerificationSuccessful),
        6 => Some(ImageTransferStatus::ImageActivated),
        7 => Some(ImageTransferStatus::ImageNotActivated),
        _ => None,
    }
}

/// Image transfer: block size, first block, block count, reference,
/// identification and status.
pub struct ImageTransfer {
    logical_name: ObisCode,
    block_size: u16,
    first_block: Vec<u8>,
    block_count: u32,
    reference: Vec<u8>,
    identification: u8,
    status: ImageTransferStatus,
}

/// The attributes of an [`ImageTransfer`].
pub struct ImageTransferView {
    pub logical_name: ObisCode,
    pub block_size: u16,
    pub first_block: Seq<u8>,
    pub block_count: u32,
    pub reference: Seq<u8>,
    pub identification: u8,
    pub status: ImageTransferStatus,
}

impl View for ImageTransfer {
    type V = ImageTransferView;

    closed spec fn view(&self) -> ImageTransferView {
        ImageTransferView {
            logical_name: self.logical_name,
            block_size: self.block_size,
            first_block: self.first_block@,
            block_count: self.block_count,
            reference: self.reference@,
            identification: self.identification,
            status: self.status,
        }
    }
}

impl ImageTransferView {
    /// The value of an attribute, where the class exposes it.
    pub open spec fn attribute(self, attr: u8) -> Option<DataView> {
        match attr {
            1 => Some(logical_name_value(self.logical_name)),
            2 => Some(DataView::LongUnsigned(self.block_size)),
            3 => Some(DataView::OctetString(self.first_block)),
            4 => Some(DataView::DoubleLongUnsigned(self.block_count)),
            5 => Some(DataView::OctetString(self.reference)),
            6 => Some(DataView::Unsigned(self.identification)),
            7 => Some(DataView::Enum(status_code(self.status))),
            _ => None,
        }
    }

    /// Writing attribute `attr` with the decoded value `d` (`None` where
    /// decoding failed): only the status (7) is writable, from an enum
    /// holding a status code.
    pub open spec fn write(self, attr: u8, d: Option<DataView>) -> (Result<(), CosemObjectError>, ImageTransferView) {
        match attr {
            7 => match d {
                Some(DataView::Enum(v)) => match status_of(v) {
                    Some(s) => (Ok(()), ImageTransferView { status: s, ..self }),
                    None => (Err(CosemObjectError::InvalidData), self),
                },
                _ => (Err(CosemObjectError::InvalidData), self),
            },
            _ => (Err(CosemObjectError::AttributeNotSupported(attr)), self),
        }
    }
}

impl ImageTransfer {
    /// An idle transfer with a block size of 200 and nothing transferred.
    pub fn new(logical_name: ObisCode) -> (r: ImageTransfer)
        ensures
            r@ == (ImageTransferView {
                logical_name,
                block_size: 200,
                first_block: Seq::empty(),
                block_count: 0,
                reference: Seq::empty(),
                identification: 0,
                status: ImageTransferStatus::Idle,
            }),
    {
        ImageTransfer {
            logical_name,
            block_size: 200,
            first_block: Vec::new(),
            block_count: 0,
            reference: Vec::new(),
            identification: 0,
            status: ImageTransferStatus::Idle,
        }
    }

    pub fn status(&self) -> (r: ImageTransferStatus)
        ensures
            r == self@.status,
    {
        self.status
    }

    pub fn set_status(&mut self, s: ImageTransferStatus)
        ensures
            final(self)@ == (ImageTransferView { status: s, ..old(self)@ }),
    {
        self.status = s;
    }

    pub fn class_id(&self) -> (r: u16)
        ensures
            r == 18,
    {
        18
    }

    pub fn logical_name(&self) -> (r: ObisCode)
        ensures
            r == self@.logical_name,
    {
        self.logical_name
    }

    pub fn attribute_count(&self) -> (r: u8)
        ensures
            r == 7,
    {
        7
    }

    pub fn method_count(&self) -> (r: u8)
        ensures
            r == 5,
    {
        5
    }

    /// The value of attribute `attr`, for the A-XDR encoder.
    pub fn attribute_data(&self, attr: u8) -> (r: Option<DlmsData>)
        ensures
            opt_view(r) == self@.attribute(attr),
    {
        match attr {
            1 => Some(logical_name_data(&self.logical_name)),
            2 => Some(DlmsData::LongUnsigned(self.block_size)),
            3 => Some(DlmsData::OctetString(copy_bytes(self.first_block.as_slice()))),
            4 => Some(DlmsData::DoubleLongUnsigned(self.block_count)),
            5 => Some(DlmsData::OctetString(copy_bytes(self.reference.as_slice()))),
            6 => Some(DlmsData::Unsigned(self.identification)),
            7 => Some(DlmsData::Enum(self.status.to_u8())),
            _ => None,
        }
    }

    /// Writes attribute `attr` from the value the A-XDR decoder produced
    /// (`None` where decoding failed).
    pub fn apply_attribute(&mut self, attr: u8, decoded: Option<DlmsData>) -> (r: Result<(), CosemObjectError>)
        ensures
            (r, final(self)@) == old(self)@.write(attr, opt_view(decoded)),
    {
        match attr {
            7 => match decoded {
                Some(DlmsData::Enum(v)) => match status_from_code(v) {
                    Some(s) => {
                        self.status = s;
                        Ok(())
                    },
                    None => Err(CosemObjectError::InvalidData),
                },
                _ => Err(CosemObjectError::InvalidData),
            },
            _ => Err(CosemObjectError::AttributeNotSupported(attr)),
        }
    }
}

/// A status survives its code, and exactly the codes 0 to 7 name a status.
pub proof fn lemma_status_round_trip(s: ImageTransferStatus, v: u8)
    ensures
        status_of(status_code(s)) == Some(s),
        status_of(v) is Some <==> v <= 7,
        v <= 7 ==> status_code(status_of(v)->0) == v,
{
}

/// A status code written to attribute 7 is read back.
pub proof fn lemma_read_back(v: ImageTransferView, code: u8)
    requires
        code <= 7,
    ensures
        v.write(7, Some(DataView::Enum(code))).0 is Ok,
        v.write(7, Some(DataView::Enum(code))).1.attribute(7) == Some(DataView::Enum(code)),
{
}

} // verus!
