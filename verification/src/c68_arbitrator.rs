//! IC68 Arbitrator: arbitrates between competing actions.

use vstd::prelude::*;
use crate::cosem::{
    copy_items, items_view, logical_name_data, logical_name_value, opt_view, CosemObjectError,
    DataView, DlmsData, ObisCode,
};

verus! {

/// Arbitrator: the actions, their weights and the longest backup time.
pub struct Arbitrator {
    logical_name: ObisCode,
    arbitrator_list: Vec<DlmsData>,
    weights: Vec<DlmsData>,
    longest_backup_time: u32,
}

/// The attributes of a [`Arbitrator`].
pub struct ArbitratorView {
    pub logical_name: ObisCode,
    pub arbitrator_list: Seq<DataView>,
    pub weights: Seq<DataView>,
    /// Seconds.
    pub longest_backup_time: u32,
}

impl View for Arbitrator {
    type V = ArbitratorView;

    closed spec fn view(&self) -> ArbitratorView {
        ArbitratorView {
            logical_name: self.logical_name,
            arbitrator_list: items_view(self.arbitrator_list@),
            weights: items_view(self.weights@),
            longest_backup_time: self.longest_backup_time,
        }
    }
}

impl ArbitratorView {
    /// The value of an attribute, where the class exposes it.
    pub open spec fn attribute(self, attr: u8) -> Option<DataView> {
        match attr {
            1 => Some(logical_name_value(self.logical_name)),
            2 => Some(DataView::Array(self.arbitrator_list)),
            3 => Some(DataView::Array(self.weights)),
            4 => Some(DataView::DoubleLongUnsigned(self.longest_backup_time)),
            _ => None,
        }
    }

    /// Writing attribute `attr` with the decoded value `d` (`None` where
    /// decoding failed): the outcome and the new attributes.
    pub open spec fn write(self, attr: u8, d: Option<DataView>) -> (Result<(), CosemObjectError>, ArbitratorView) {
        (Err(CosemObjectError::AttributeNotSupported(attr)), self)
    }
}

impl Arbitrator {
    pub fn new(logical_name: ObisCode) -> (r: Arbitrator)
        ensures
            r@ == (ArbitratorView {
                logical_name: logical_name,
                arbitrator_list: Seq::<DataView>::empty(),
                weights: Seq::<DataView>::empty(),
                longest_backup_time: 3600,
            }),
    {
        Arbitrator {
            logical_name: logical_name,
            arbitrator_list: Vec::new(),
            weights: Vec::new(),
            longest_backup_time: 3600,
        }
    }

    pub fn longest_backup_time(&self) -> (r: u32)
        ensures
            r == self@.longest_backup_time,
    {
        self.longest_backup_time
    }

    pub fn set_longest_backup_time(&mut self, t: u32)
        ensures
            final(self)@ == (ArbitratorView { longest_backup_time: t, ..old(self)@ }),
    {
        self.longest_backup_time = t;
    }

    pub fn class_id(&self) -> (r: u16)
        ensures
            r == 68,
    {
        68
    }

    pub fn logical_name(&self) -> (r: ObisCode)
        ensures
            r == self@.logical_name,
    {
        self.logical_name
    }

    pub fn attribute_count(&self) -> (r: u8)
        ensures
            r == 4,
    {
        4
    }

    pub fn method_count(&self) -> (r: u8)
        ensures
            r == 0,
    {
        0
    }

    /// The value of attribute `attr`, for the A-XDR encoder.
    pub fn attribute_data(&self, attr: u8) -> (r: Option<DlmsData>)
        ensures
            opt_view(r) == self@.attribute(attr),
    {
        match attr {
            1 => Some(logical_name_data(&self.logical_name)),
            2 => Some(DlmsData::Array(copy_items(&self.arbitrator_list))),
            3 => Some(DlmsData::Array(copy_items(&self.weights))),
            4 => Some(DlmsData::DoubleLongUnsigned(self.longest_backup_time)),
            _ => None,
        }
    }

    /// Writes attribute `attr` from the value the A-XDR decoder produced
    /// (`None` where decoding failed).
    pub fn apply_attribute(&mut self, attr: u8, decoded: Option<DlmsData>) -> (r: Result<(), CosemObjectError>)
        ensures
            (r, final(self)@) == old(self)@.write(attr, opt_view(decoded)),
    {
        Err(CosemObjectError::AttributeNotSupported(attr))
    }
}

} // verus!
