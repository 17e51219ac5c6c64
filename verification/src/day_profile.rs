//! IC22 Day profile: a named day schedule of tariff switch times.

use vstd::prelude::*;
use vstd::utf8::encode_utf8;
use crate::cosem::{
    copy_bytes, lemma_items_view_eq, logical_name_data, logical_name_value, opt_view, CosemObjectError, DataView,
    DlmsData, ObisCode,
};

verus! {

/// A switch time (COSEM time, four bytes) and the tariff from then on.
#[derive(Debug, Clone, Copy)]
pub struct DayScheduleEntry {
    pub start_time: [u8; 4],
    pub tariff: u8,
}

/// Day profile: a name and its schedule entries in the order they were added.
pub struct DayProfile {
    logical_name: ObisCode,
    name: String,
    schedules: Vec<DayScheduleEntry>,
}

/// The attributes of a [`DayProfile`].
pub struct DayProfileView {
    pub logical_name: ObisCode,
    pub name: Seq<char>,
    pub schedules: Seq<DayScheduleEntry>,
}

impl View for DayProfile {
    type V = DayProfileView;

    closed spec fn view(&self) -> DayProfileView {
        DayProfileView { logical_name: self.logical_name, name: self.name@, schedules: self.schedules@ }
    }
}

/// The value of a schedule entry: start time and tariff.
pub open spec fn schedule_value(e: DayScheduleEntry) -> DataView {
    DataView::Structure(seq![DataView::Time(e.start_time@), DataView::Unsigned(e.tariff)])
}

impl DayProfileView {
    /// The value of an attribute, where the class exposes it; the name is
    /// given as its UTF-8 octets.
    pub open spec fn attribute(self, attr: u8) -> Option<DataView> {
        match attr {
            1 => Some(logical_name_value(self.logical_name)),
            2 => Some(DataView::OctetString(encode_utf8(self.name))),
            3 => Some(DataView::Array(self.schedules.map_values(|e: DayScheduleEntry| schedule_value(e)))),
            _ => None,
        }
    }
}

impl DayProfile {
    /// An unnamed profile with no entries.
    pub fn new(logical_name: ObisCode) -> (r: DayProfile)
        ensures
            r@ == (DayProfileView { logical_name, name: Seq::empty(), schedules: Seq::empty() }),
    {
        DayProfile { logical_name, name: String::new(), schedules: Vec::new() }
    }

    pub fn set_name(&mut self, name: &str)
        ensures
            final(self)@ == (DayProfileView { name: name@, ..old(self)@ }),
    {
        self.name = name.to_owned();
    }

    pub fn add_schedule(&mut self, start_time: [u8; 4], tariff: u8)
        ensures
            final(self)@ == (DayProfileView {
                schedules: old(self)@.schedules.push(DayScheduleEntry { start_time, tariff }),
                ..old(self)@
            }),
    {
        self.schedules.push(DayScheduleEntry { start_time, tariff });
    }

    pub fn schedule_count(&self) -> (r: usize)
        ensures
            r == self@.schedules.len(),
    {
        self.schedules.len()
    }

    pub fn class_id(&self) -> (r: u16)
        ensures
            r == 22,
    {
        22
    }

    pub fn logical_name(&self) -> (r: ObisCode)
        ensures
            r == self@.logical_name,
    {
        self.logical_name
    }

    pub fn attribute_count(&self) -> (r: u8)
        ensures
            r == 3,
    {
        3
    }

    pub fn method_count(&self) -> (r: u8)
        ensures
            r == 0,
    {
        0
    }

    /// The value of attribute `attr`, for the A-XDR encoder.
    pub fn attribute_data(&self, attr: u8) -> (r: Option<DlmsData>)
        ensures
            opt_view(r) == self@.attribute(attr),
    {
        match attr {
            1 => Some(logical_name_data(&self.logical_name)),
            2 => Some(DlmsData::OctetString(copy_bytes(self.name.as_str().as_bytes()))),
            3 => {
                let mut items: Vec<DlmsData> = Vec::new();
                let mut i: usize = 0;
                while i < self.schedules.len()
                    invariant
                        i <= self.schedules@.len(),
                        items@.len() == i,
                        forall|j: int| 0 <= j < i ==> (#[trigger] items@[j])@ == schedule_value(self.schedules@[j]),
                    decreases self.schedules@.len() - i,
                {
                    let e = self.schedules[i];
                    let fields = vec![DlmsData::Time(e.start_time), DlmsData::Unsigned(e.tariff)];
                    proof {
                        lemma_items_view_eq(fields@, seq![DataView::Time(e.start_time@), DataView::Unsigned(e.tariff)]);
                    }
                    items.push(DlmsData::Structure(fields));
                    i = i + 1;
                }
                proof {
                    lemma_items_view_eq(items@, self@.schedules.map_values(|e: DayScheduleEntry| schedule_value(e)));
                }
                Some(DlmsData::Array(items))
            },
            _ => None,
        }
    }

    /// No attribute is writable; every write is refused as attribute 0.
    pub fn apply_attribute(&mut self, attr: u8, decoded: Option<DlmsData>) -> (r: Result<(), CosemObjectError>)
        ensures
            r == Err::<(), CosemObjectError>(CosemObjectError::AttributeNotSupported(0)),
            final(self)@ == old(self)@,
    {
        Err(CosemObjectError::AttributeNotSupported(0))
    }
}

} // verus!
