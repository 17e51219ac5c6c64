//! Extended profile (class 200): a load profile with quality and status per entry.

use vstd::prelude::*;
use crate::cosem::{
    lemma_items_view_eq, logical_name_data, logical_name_value, opt_view, CosemObjectError, DataView, DlmsData,
    ObisCode,
};

verus! {

/// One profile entry with its quality indicator and status flags.
pub struct ExtendedProfileEntry {
    pub timestamp: DlmsData,
    pub value: DlmsData,
    pub quality_indicator: u8,
    pub status_flags: u16,
}

/// The value of an [`ExtendedProfileEntry`].
pub struct ExtendedProfileEntryView {
    pub timestamp: DataView,
    pub value: DataView,
    pub quality_indicator: u8,
    pub status_flags: u16,
}

impl View for ExtendedProfileEntry {
    type V = ExtendedProfileEntryView;

    open spec fn view(&self) -> ExtendedProfileEntryView {
        ExtendedProfileEntryView {
            timestamp: self.timestamp@,
            value: self.value@,
            quality_indicator: self.quality_indicator,
            status_flags: self.status_flags,
        }
    }
}

/// Extended profile: entries oldest first; entries past `max_entries` are
/// not taken.
pub struct ExtendedProfile {
    logical_name: ObisCode,
    entries: Vec<ExtendedProfileEntry>,
    capture_period: u16,
    max_entries: u16,
}

/// The attributes of an [`ExtendedProfile`].
pub struct ExtendedProfileView {
    pub logical_name: ObisCode,
    pub entries: Seq<ExtendedProfileEntryView>,
    pub capture_period: u16,
    pub max_entries: u16,
}

impl View for ExtendedProfile {
    type V = ExtendedProfileView;

    closed spec fn view(&self) -> ExtendedProfileView {
        ExtendedProfileView {
            logical_name: self.logical_name,
            entries: self.entries@.map_values(|e: ExtendedProfileEntry| e@),
            capture_period: self.capture_period,
            max_entries: self.max_entries,
        }
    }
}

/// The value of a profile entry: time stamp, value, quality (enum), status.
pub open spec fn profile_entry_value(e: ExtendedProfileEntryView) -> DataView {
    DataView::Structure(
        seq![e.timestamp, e.value, DataView::Enum(e.quality_indicator), DataView::LongUnsigned(e.status_flags)],
    )
}

impl ExtendedProfileView {
    /// The value of an attribute, where the class exposes it.
    pub open spec fn attribute(self, attr: u8) -> Option<DataView> {
        match attr {
            1 => Some(logical_name_value(self.logical_name)),
            2 => Some(DataView::Array(self.entries.map_values(|e: ExtendedProfileEntryView| profile_entry_value(e)))),
            3 => Some(DataView::LongUnsigned(self.entries.len() as u16)),
            4 => Some(DataView::LongUnsigned(self.capture_period)),
            5 => Some(DataView::LongUnsigned(self.max_entries)),
            _ => None,
        }
    }

    /// The entries after adding `e`: appended while below `max_entries`,
    /// otherwise unchanged.
    pub open spec fn added(self, e: ExtendedProfileEntryView) -> Seq<ExtendedProfileEntryView> {
        if self.entries.len() < self.max_entries {
            self.entries.push(e)
        } else {
            self.entries
        }
    }

    /// Writing attribute `attr` with the decoded value `d` (`None` where
    /// decoding failed): the outcome and the new attributes.
    pub open spec fn write(self, attr: u8, d: Option<DataView>) -> (Result<(), CosemObjectError>, ExtendedProfileView) {
        match attr {
            4 => match d {
                Some(DataView::LongUnsigned(v)) => (Ok(()), ExtendedProfileView { capture_period: v, ..self }),
                _ => (Err(CosemObjectError::InvalidData), self),
            },
            _ => (Err(CosemObjectError::AttributeNotSupported(attr)), self),
        }
    }
}

impl ExtendedProfile {
    /// A profile capturing every 900 seconds, for up to 1000 entries.
    pub fn new(logical_name: ObisCode) -> (r: ExtendedProfile)
        ensures
            r@ == (ExtendedProfileView { logical_name, entries: Seq::empty(), capture_period: 900, max_entries: 1000 }),
    {
        let r = ExtendedProfile { logical_name, entries: Vec::new(), capture_period: 900, max_entries: 1000 };
        assert(r@.entries =~= Seq::empty());
        r
    }

    /// Appends `entry` unless the profile already holds `max_entries`.
    pub fn add_entry(&mut self, entry: ExtendedProfileEntry)
        ensures
            final(self)@ == (ExtendedProfileView { entries: old(self)@.added(entry@), ..old(self)@ }),
    {
        if self.entries.len() < self.max_entries as usize {
            let ghost ev = entry@;
            self.entries.push(entry);
            assert(self.entries@.map_values(|e: ExtendedProfileEntry| e@) =~= old(self)@.entries.push(ev));
        }
    }

    pub fn entries(&self) -> (r: &[ExtendedProfileEntry])
        ensures
            r@.map_values(|e: ExtendedProfileEntry| e@) == self@.entries,
    {
        self.entries.as_slice()
    }

    pub fn entry_count(&self) -> (r: usize)
        ensures
            r == self@.entries.len(),
    {
        self.entries.len()
    }

    pub fn clear(&mut self)
        ensures
            final(self)@ == (ExtendedProfileView { entries: Seq::empty(), ..old(self)@ }),
    {
        self.entries.clear();
        assert(self.entries@.map_values(|e: ExtendedProfileEntry| e@) =~= Seq::empty());
    }

    pub fn class_id(&self) -> (r: u16)
        ensures
            r == 200,
    {
        200
    }

    pub fn logical_name(&self) -> (r: ObisCode)
        ensures
            r == self@.logical_name,
    {
        self.logical_name
    }

    pub fn attribute_count(&self) -> (r: u8)
        ensures
            r == 8,
    {
        8
    }

    pub fn method_count(&self) -> (r: u8)
        ensures
            r == 2,
    {
        2
    }

    /// The value of attribute `attr`, for the A-XDR encoder.
    pub fn attribute_data(&self, attr: u8) -> (r: Option<DlmsData>)
        ensures
            opt_view(r) == self@.attribute(attr),
    {
        match attr {
            1 => Some(logical_name_data(&self.logical_name)),
            2 => {
                let mut items: Vec<DlmsData> = Vec::new();
                let mut i: usize = 0;
                while i < self.entries.len()
                    invariant
                        i <= self.entries@.len(),
                        items@.len() == i,
                        forall|j: int| 0 <= j < i ==> (#[trigger] items@[j])@ == profile_entry_value(self.entries@[j]@),
                    decreases self.entries@.len() - i,
                {
                    let e = &self.entries[i];
                    let fields = vec![
                        e.timestamp.copy(),
                        e.value.copy(),
                        DlmsData::Enum(e.quality_indicator),
                        DlmsData::LongUnsigned(e.status_flags),
                    ];
                    proof {
                        lemma_items_view_eq(
                            fields@,
                            seq![e.timestamp@, e.value@, DataView::Enum(e.quality_indicator), DataView::LongUnsigned(e.status_flags)],
                        );
                    }
                    items.push(DlmsData::Structure(fields));
                    i = i + 1;
                }
                proof {
                    lemma_items_view_eq(
                        items@,
                        self@.entries.map_values(|e: ExtendedProfileEntryView| profile_entry_value(e)),
                    );
                }
                Some(DlmsData::Array(items))
            },
            3 => Some(DlmsData::LongUnsigned(self.entries.len() as u16)),
            4 => Some(DlmsData::LongUnsigned(self.capture_period)),
            5 => Some(DlmsData::LongUnsigned(self.max_entries)),
            _ => None,
        }
    }

    /// Writes attribute `attr` from the value the A-XDR decoder produced
    /// (`None` where decoding failed).
    pub fn apply_attribute(&mut self, attr: u8, decoded: Option<DlmsData>) -> (r: Result<(), CosemObjectError>)
        ensures
            (r, final(self)@) == old(self)@.write(attr, opt_view(decoded)),
    {
        match attr {
            4 => match decoded {
                Some(DlmsData::LongUnsigned(v)) => {
                    self.capture_period = v;
                    Ok(())
                },
                _ => Err(CosemObjectError::InvalidData),
            },
            _ => Err(CosemObjectError::AttributeNotSupported(attr)),
        }
    }
}

/// Adding entries never takes the profile past `max_entries`; below the
/// limit the added entry is the newest.
pub proof fn lemma_add_bounded(v: ExtendedProfileView, e: ExtendedProfileEntryView)
    requires
        v.entries.len() <= v.max_entries,
    ensures
        v.added(e).len() <= v.max_entries,
        v.entries.len() < v.max_entries ==> v.added(e).last() == e,
{
}

/// A value accepted for the capture period is read back unchanged.
pub proof fn lemma_read_back(v: ExtendedProfileView, attr: u8, d: DataView)
    requires
        v.write(attr, Some(d)).0 is Ok,
    ensures
        v.write(attr, Some(d)).1.attribute(attr) == Some(d),
{
}

} // verus!
