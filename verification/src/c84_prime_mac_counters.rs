//! IC84 PRIME NB OFDM PLC MAC counters.

use vstd::prelude::*;
use crate::cosem::{
    logical_name_data, logical_name_value, opt_view, same_kind, CosemObjectError, DataView,
    DlmsData, ObisCode,
};

verus! {

/// PRIME MAC layer counters.
pub struct PrimeMacCounters {
    logical_name: ObisCode,
    mac_tx_total: u32,
    mac_rx_total: u32,
    mac_tx_error: u32,
}

/// The attributes of a [`PrimeMacCounters`].
pub struct PrimeMacCountersView {
    pub logical_name: ObisCode,
    pub mac_tx_total: u32,
    pub mac_rx_total: u32,
    pub mac_tx_error: u32,
}

impl View for PrimeMacCounters {
    type V = PrimeMacCountersView;

    closed spec fn view(&self) -> PrimeMacCountersView {
        PrimeMacCountersView {
            logical_name: self.logical_name,
            mac_tx_total: self.mac_tx_total,
            mac_rx_total: self.mac_rx_total,
            mac_tx_error: self.mac_tx_error,
        }
    }
}

impl PrimeMacCountersView {
    /// The value of an attribute, where the class exposes it.
    pub open spec fn attribute(self, attr: u8) -> Option<DataView> {
        match attr {
            1 => Some(logical_name_value(self.logical_name)),
            2 => Some(DataView::DoubleLongUnsigned(self.mac_tx_total)),
            3 => Some(DataView::DoubleLongUnsigned(self.mac_rx_total)),
            4 => Some(DataView::DoubleLongUnsigned(self.mac_tx_error)),
            _ => None,
        }
    }

    /// Writing attribute `attr` with the decoded value `d` (`None` where
    /// decoding failed): the outcome and the new attributes.
    pub open spec fn write(self, attr: u8, d: Option<DataView>) -> (Result<(), CosemObjectError>, PrimeMacCountersView) {
        match attr {
            2 => match d {
                Some(DataView::DoubleLongUnsigned(v)) => (Ok(()), PrimeMacCountersView { mac_tx_total: v, ..self }),
                _ => (Err(CosemObjectError::InvalidData), self),
            },
            3 => match d {
                Some(DataView::DoubleLongUnsigned(v)) => (Ok(()), PrimeMacCountersView { mac_rx_total: v, ..self }),
                _ => (Err(CosemObjectError::InvalidData), self),
            },
            4 => match d {
                Some(DataView::DoubleLongUnsigned(v)) => (Ok(()), PrimeMacCountersView { mac_tx_error: v, ..self }),
                _ => (Err(CosemObjectError::InvalidData), self),
            },
            _ => (Err(CosemObjectError::AttributeNotSupported(attr)), self),
        }
    }
}

impl PrimeMacCounters {
    pub fn new(logical_name: ObisCode) -> (r: PrimeMacCounters)
        ensures
            r@ == (PrimeMacCountersView {
                logical_name: logical_name,
                mac_tx_total: 0,
                mac_rx_total: 0,
                mac_tx_error: 0,
            }),
    {
        PrimeMacCounters {
            logical_name: logical_name,
            mac_tx_total: 0,
            mac_rx_total: 0,
            mac_tx_error: 0,
        }
    }

    pub fn mac_tx_total(&self) -> (r: u32)
        ensures
            r == self@.mac_tx_total,
    {
        self.mac_tx_total
    }

    pub fn mac_rx_total(&self) -> (r: u32)
        ensures
            r == self@.mac_rx_total,
    {
        self.mac_rx_total
    }

    pub fn mac_tx_error(&self) -> (r: u32)
        ensures
            r == self@.mac_tx_error,
    {
        self.mac_tx_error
    }

    pub fn set_mac_tx_total(&mut self, v: u32)
        ensures
            final(self)@ == (PrimeMacCountersView { mac_tx_total: v, ..old(self)@ }),
    {
        self.mac_tx_total = v;
    }

    pub fn set_mac_rx_total(&mut self, v: u32)
        ensures
            final(self)@ == (PrimeMacCountersView { mac_rx_total: v, ..old(self)@ }),
    {
        self.mac_rx_total = v;
    }

    pub fn set_mac_tx_error(&mut self, v: u32)
        ensures
            final(self)@ == (PrimeMacCountersView { mac_tx_error: v, ..old(self)@ }),
    {
        self.mac_tx_error = v;
    }

    pub fn class_id(&self) -> (r: u16)
        ensures
            r == 84,
    {
        84
    }

    pub fn logical_name(&self) -> (r: ObisCode)
        ensures
            r == self@.logical_name,
    {
        self.logical_name
    }

    pub fn attribute_count(&self) -> (r: u8)
        ensures
            r == 4,
    {
        4
    }

    pub fn method_count(&self) -> (r: u8)
        ensures
            r == 0,
    {
        0
    }

    /// The value of attribute `attr`, for the A-XDR encoder.
    pub fn attribute_data(&self, attr: u8) -> (r: Option<DlmsData>)
        ensures
            opt_view(r) == self@.attribute(attr),
    {
        match attr {
            1 => Some(logical_name_data(&self.logical_name)),
            2 => Some(DlmsData::DoubleLongUnsigned(self.mac_tx_total)),
            3 => Some(DlmsData::DoubleLongUnsigned(self.mac_rx_total)),
            4 => Some(DlmsData::DoubleLongUnsigned(self.mac_tx_error)),
            _ => None,
        }
    }

    /// Writes attribute `attr` from the value the A-XDR decoder produced
    /// (`None` where decoding failed).
    pub fn apply_attribute(&mut self, attr: u8, decoded: Option<DlmsData>) -> (r: Result<(), CosemObjectError>)
        ensures
            (r, final(self)@) == old(self)@.write(attr, opt_view(decoded)),
    {
        match attr {
            2 => {
                match decoded {
                    Some(DlmsData::DoubleLongUnsigned(v)) => {
                        self.mac_tx_total = v;
                        Ok(())
                    },
                    _ => Err(CosemObjectError::InvalidData),
                }
            },
            3 => {
                match decoded {
                    Some(DlmsData::DoubleLongUnsigned(v)) => {
                        self.mac_rx_total = v;
                        Ok(())
                    },
                    _ => Err(CosemObjectError::InvalidData),
                }
            },
            4 => {
                match decoded {
                    Some(DlmsData::DoubleLongUnsigned(v)) => {
                        self.mac_tx_error = v;
                        Ok(())
                    },
                    _ => Err(CosemObjectError::InvalidData),
                }
            },
            _ => Err(CosemObjectError::AttributeNotSupported(attr)),
        }
    }
}

/// A value accepted for an attribute is read back unchanged, where it is
/// of the kind that the attribute reports.
pub proof fn lemma_read_back(v: PrimeMacCountersView, attr: u8, d: DataView)
    requires
        v.write(attr, Some(d)).0 is Ok,
        v.attribute(attr) matches Some(cur) && same_kind(d, cur),
    ensures
        v.write(attr, Some(d)).1.attribute(attr) == Some(d),
{
}

} // verus!
