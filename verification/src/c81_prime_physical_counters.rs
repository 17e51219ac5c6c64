//! IC81 PRIME NB OFDM PLC physical layer counters.

use vstd::prelude::*;
use crate::cosem::{
    logical_name_data, logical_name_value, opt_view, same_kind, CosemObjectError, DataView,
    DlmsData, ObisCode,
};

verus! {

/// PRIME physical layer counters.
pub struct PrimePhysicalCounters {
    logical_name: ObisCode,
    phy_tx_drop: u32,
    phy_rx_total: u32,
    phy_rx_crc_error: u32,
}

/// The attributes of a [`PrimePhysicalCounters`].
pub struct PrimePhysicalCountersView {
    pub logical_name: ObisCode,
    pub phy_tx_drop: u32,
    pub phy_rx_total: u32,
    pub phy_rx_crc_error: u32,
}

impl View for PrimePhysicalCounters {
    type V = PrimePhysicalCountersView;

    closed spec fn view(&self) -> PrimePhysicalCountersView {
        PrimePhysicalCountersView {
            logical_name: self.logical_name,
            phy_tx_drop: self.phy_tx_drop,
            phy_rx_total: self.phy_rx_total,
            phy_rx_crc_error: self.phy_rx_crc_error,
        }
    }
}

impl PrimePhysicalCountersView {
    /// The value of an attribute, where the class exposes it.
    pub open spec fn attribute(self, attr: u8) -> Option<DataView> {
        match attr {
            1 => Some(logical_name_value(self.logical_name)),
            2 => Some(DataView::DoubleLongUnsigned(self.phy_tx_drop)),
            3 => Some(DataView::DoubleLongUnsigned(self.phy_rx_total)),
            4 => Some(DataView::DoubleLongUnsigned(self.phy_rx_crc_error)),
            _ => None,
        }
    }

    /// Writing attribute `attr` with the decoded value `d` (`None` where
    /// decoding failed): the outcome and the new attributes.
    pub open spec fn write(self, attr: u8, d: Option<DataView>) -> (Result<(), CosemObjectError>, PrimePhysicalCountersView) {
        match attr {
            2 => match d {
                Some(DataView::DoubleLongUnsigned(v)) => (Ok(()), PrimePhysicalCountersView { phy_tx_drop: v, ..self }),
                _ => (Err(CosemObjectError::InvalidData), self),
            },
            3 => match d {
                Some(DataView::DoubleLongUnsigned(v)) => (Ok(()), PrimePhysicalCountersView { phy_rx_total: v, ..self }),
                _ => (Err(CosemObjectError::InvalidData), self),
            },
            4 => match d {
                Some(DataView::DoubleLongUnsigned(v)) => (Ok(()), PrimePhysicalCountersView { phy_rx_crc_error: v, ..self }),
                _ => (Err(CosemObjectError::InvalidData), self),
            },
            _ => (Err(CosemObjectError::AttributeNotSupported(attr)), self),
        }
    }
}

impl PrimePhysicalCounters {
    pub fn new(logical_name: ObisCode) -> (r: PrimePhysicalCounters)
        ensures
            r@ == (PrimePhysicalCountersView {
                logical_name: logical_name,
                phy_tx_drop: 0,
                phy_rx_total: 0,
                phy_rx_crc_error: 0,
            }),
    {
        PrimePhysicalCounters {
            logical_name: logical_name,
            phy_tx_drop: 0,
            phy_rx_total: 0,
            phy_rx_crc_error: 0,
        }
    }

    pub fn phy_tx_drop(&self) -> (r: u32)
        ensures
            r == self@.phy_tx_drop,
    {
        self.phy_tx_drop
    }

    pub fn phy_rx_total(&self) -> (r: u32)
        ensures
            r == self@.phy_rx_total,
    {
        self.phy_rx_total
    }

    pub fn phy_rx_crc_error(&self) -> (r: u32)
        ensures
            r == self@.phy_rx_crc_error,
    {
        self.phy_rx_crc_error
    }

    pub fn set_phy_tx_drop(&mut self, v: u32)
        ensures
            final(self)@ == (PrimePhysicalCountersView { phy_tx_drop: v, ..old(self)@ }),
    {
        self.phy_tx_drop = v;
    }

    pub fn set_phy_rx_total(&mut self, v: u32)
        ensures
            final(self)@ == (PrimePhysicalCountersView { phy_rx_total: v, ..old(self)@ }),
    {
        self.phy_rx_total = v;
    }

    pub fn set_phy_rx_crc_error(&mut self, v: u32)
        ensures
            final(self)@ == (PrimePhysicalCountersView { phy_rx_crc_error: v, ..old(self)@ }),
    {
        self.phy_rx_crc_error = v;
    }

    pub fn class_id(&self) -> (r: u16)
        ensures
            r == 81,
    {
        81
    }

    pub fn logical_name(&self) -> (r: ObisCode)
        ensures
            r == self@.logical_name,
    {
        self.logical_name
    }

    pub fn attribute_count(&self) -> (r: u8)
        ensures
            r == 4,
    {
        4
    }

    pub fn method_count(&self) -> (r: u8)
        ensures
            r == 0,
    {
        0
    }

    /// The value of attribute `attr`, for the A-XDR encoder.
    pub fn attribute_data(&self, attr: u8) -> (r: Option<DlmsData>)
        ensures
            opt_view(r) == self@.attribute(attr),
    {
        match attr {
            1 => Some(logical_name_data(&self.logical_name)),
            2 => Some(DlmsData::DoubleLongUnsigned(self.phy_tx_drop)),
            3 => Some(DlmsData::DoubleLongUnsigned(self.phy_rx_total)),
            4 => Some(DlmsData::DoubleLongUnsigned(self.phy_rx_crc_error)),
            _ => None,
        }
    }

    /// Writes attribute `attr` from the value the A-XDR decoder produced
    /// (`None` where decoding failed).
    pub fn apply_attribute(&mut self, attr: u8, decoded: Option<DlmsData>) -> (r: Result<(), CosemObjectError>)
        ensures
            (r, final(self)@) == old(self)@.write(attr, opt_view(decoded)),
    {
        match attr {
            2 => {
                match decoded {
                    Some(DlmsData::DoubleLongUnsigned(v)) => {
                        self.phy_tx_drop = v;
                        Ok(())
                    },
                    _ => Err(CosemObjectError::InvalidData),
                }
            },
            3 => {
                match decoded {
                    Some(DlmsData::DoubleLongUnsigned(v)) => {
                        self.phy_rx_total = v;
                        Ok(())
                    },
                    _ => Err(CosemObjectError::InvalidData),
                }
            },
            4 => {
                match decoded {
                    Some(DlmsData::DoubleLongUnsigned(v)) => {
                        self.phy_rx_crc_error = v;
                        Ok(())
                    },
                    _ => Err(CosemObjectError::InvalidData),
                }
            },
            _ => Err(CosemObjectError::AttributeNotSupported(attr)),
        }
    }
}

/// A value accepted for an attribute is read back unchanged, where it is
/// of the kind that the attribute reports.
pub proof fn lemma_read_back(v: PrimePhysicalCountersView, attr: u8, d: DataView)
    requires
        v.write(attr, Some(d)).0 is Ok,
        v.attribute(attr) matches Some(cur) && same_kind(d, cur),
    ensures
        v.write(attr, Some(d)).1.attribute(attr) == Some(d),
{
}

} // verus!
