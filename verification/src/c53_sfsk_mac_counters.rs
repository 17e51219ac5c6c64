//! IC53 S-FSK MAC counters.

use vstd::prelude::*;
use crate::cosem::{
    logical_name_data, logical_name_value, opt_view, same_kind, CosemObjectError, DataView,
    DlmsData, ObisCode,
};

verus! {

/// S-FSK MAC layer packet counters.
pub struct SfskMacCounters {
    logical_name: ObisCode,
    tx_packet_count: u32,
    rx_packet_count: u32,
    crc_error_count: u32,
}

/// The attributes of a [`SfskMacCounters`].
pub struct SfskMacCountersView {
    pub logical_name: ObisCode,
    pub tx_packet_count: u32,
    pub rx_packet_count: u32,
    pub crc_error_count: u32,
}

impl View for SfskMacCounters {
    type V = SfskMacCountersView;

    closed spec fn view(&self) -> SfskMacCountersView {
        SfskMacCountersView {
            logical_name: self.logical_name,
            tx_packet_count: self.tx_packet_count,
            rx_packet_count: self.rx_packet_count,
            crc_error_count: self.crc_error_count,
        }
    }
}

impl SfskMacCountersView {
    /// The value of an attribute, where the class exposes it.
    pub open spec fn attribute(self, attr: u8) -> Option<DataView> {
        match attr {
            1 => Some(logical_name_value(self.logical_name)),
            2 => Some(DataView::DoubleLongUnsigned(self.tx_packet_count)),
            3 => Some(DataView::DoubleLongUnsigned(self.rx_packet_count)),
            4 => Some(DataView::DoubleLongUnsigned(self.crc_error_count)),
            _ => None,
        }
    }

    /// Writing attribute `attr` with the decoded value `d` (`None` where
    /// decoding failed): the outcome and the new attributes.
    pub open spec fn write(self, attr: u8, d: Option<DataView>) -> (Result<(), CosemObjectError>, SfskMacCountersView) {
        match attr {
            2 => match d {
                Some(DataView::DoubleLongUnsigned(v)) => (Ok(()), SfskMacCountersView { tx_packet_count: v, ..self }),
                _ => (Err(CosemObjectError::InvalidData), self),
            },
            3 => match d {
                Some(DataView::DoubleLongUnsigned(v)) => (Ok(()), SfskMacCountersView { rx_packet_count: v, ..self }),
                _ => (Err(CosemObjectError::InvalidData), self),
            },
            4 => match d {
                Some(DataView::DoubleLongUnsigned(v)) => (Ok(()), SfskMacCountersView { crc_error_count: v, ..self }),
                _ => (Err(CosemObjectError::InvalidData), self),
            },
            _ => (Err(CosemObjectError::AttributeNotSupported(attr)), self),
        }
    }
}

impl SfskMacCounters {
    pub fn new(logical_name: ObisCode) -> (r: SfskMacCounters)
        ensures
            r@ == (SfskMacCountersView {
                logical_name: logical_name,
                tx_packet_count: 0,
                rx_packet_count: 0,
                crc_error_count: 0,
            }),
    {
        SfskMacCounters {
            logical_name: logical_name,
            tx_packet_count: 0,
            rx_packet_count: 0,
            crc_error_count: 0,
        }
    }

    pub fn tx_packet_count(&self) -> (r: u32)
        ensures
            r == self@.tx_packet_count,
    {
        self.tx_packet_count
    }

    pub fn rx_packet_count(&self) -> (r: u32)
        ensures
            r == self@.rx_packet_count,
    {
        self.rx_packet_count
    }

    pub fn crc_error_count(&self) -> (r: u32)
        ensures
            r == self@.crc_error_count,
    {
        self.crc_error_count
    }

    pub fn set_tx_packet_count(&mut self, v: u32)
        ensures
            final(self)@ == (SfskMacCountersView { tx_packet_count: v, ..old(self)@ }),
    {
        self.tx_packet_count = v;
    }

    pub fn set_rx_packet_count(&mut self, v: u32)
        ensures
            final(self)@ == (SfskMacCountersView { rx_packet_count: v, ..old(self)@ }),
    {
        self.rx_packet_count = v;
    }

    pub fn set_crc_error_count(&mut self, v: u32)
        ensures
            final(self)@ == (SfskMacCountersView { crc_error_count: v, ..old(self)@ }),
    {
        self.crc_error_count = v;
    }

    pub fn class_id(&self) -> (r: u16)
        ensures
            r == 53,
    {
        53
    }

    pub fn logical_name(&self) -> (r: ObisCode)
        ensures
            r == self@.logical_name,
    {
        self.logical_name
    }

    pub fn attribute_count(&self) -> (r: u8)
        ensures
            r == 4,
    {
        4
    }

    pub fn method_count(&self) -> (r: u8)
        ensures
            r == 0,
    {
        0
    }

    /// The value of attribute `attr`, for the A-XDR encoder.
    pub fn attribute_data(&self, attr: u8) -> (r: Option<DlmsData>)
        ensures
            opt_view(r) == self@.attribute(attr),
    {
        match attr {
            1 => Some(logical_name_data(&self.logical_name)),
            2 => Some(DlmsData::DoubleLongUnsigned(self.tx_packet_count)),
            3 => Some(DlmsData::DoubleLongUnsigned(self.rx_packet_count)),
            4 => Some(DlmsData::DoubleLongUnsigned(self.crc_error_count)),
            _ => None,
        }
    }

    /// Writes attribute `attr` from the value the A-XDR decoder produced
    /// (`None` where decoding failed).
    pub fn apply_attribute(&mut self, attr: u8, decoded: Option<DlmsData>) -> (r: Result<(), CosemObjectError>)
        ensures
            (r, final(self)@) == old(self)@.write(attr, opt_view(decoded)),
    {
        match attr {
            2 => {
                match decoded {
                    Some(DlmsData::DoubleLongUnsigned(v)) => {
                        self.tx_packet_count = v;
                        Ok(())
                    },
                    _ => Err(CosemObjectError::InvalidData),
                }
            },
            3 => {
                match decoded {
                    Some(DlmsData::DoubleLongUnsigned(v)) => {
                        self.rx_packet_count = v;
                        Ok(())
                    },
                    _ => Err(CosemObjectError::InvalidData),
                }
            },
            4 => {
                match decoded {
                    Some(DlmsData::DoubleLongUnsigned(v)) => {
                        self.crc_error_count = v;
                        Ok(())
                    },
                    _ => Err(CosemObjectError::InvalidData),
                }
            },
            _ => Err(CosemObjectError::AttributeNotSupported(attr)),
        }
    }
}

/// A value accepted for an attribute is read back unchanged, where it is
/// of the kind that the attribute reports.
pub proof fn lemma_read_back(v: SfskMacCountersView, attr: u8, d: DataView)
    requires
        v.write(attr, Some(d)).0 is Ok,
        v.attribute(attr) matches Some(cur) && same_kind(d, cur),
    ensures
        v.write(attr, Some(d)).1.attribute(attr) == Some(d),
{
}

} // verus!
