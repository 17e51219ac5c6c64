//! Data logger (class 207): measured values logged up to a limit.

use vstd::prelude::*;
use crate::cosem::{
    is_zero_date_time, lemma_items_view_eq, logical_name_data, logical_name_value, opt_view, zero_date_time,
    CosemObjectError, DataView, DlmsData, ObisCode,
};

verus! {

/// One logged value with its time stamp and quality.
pub struct DataLogEntry {
    pub timestamp: DlmsData,
    pub value: DlmsData,
    pub quality: u8,
}

/// The value of a [`DataLogEntry`].
pub struct DataLogEntryView {
    pub timestamp: DataView,
    pub value: DataView,
    pub quality: u8,
}

impl View for DataLogEntry {
    type V = DataLogEntryView;

    open spec fn view(&self) -> DataLogEntryView {
        DataLogEntryView { timestamp: self.timestamp@, value: self.value@, quality: self.quality }
    }
}

/// Data logger: logged values oldest first; logging stops at `max_entries`.
pub struct DataLogger {
    logical_name: ObisCode,
    entries: Vec<DataLogEntry>,
    max_entries: u16,
    capture_interval: u16,
}

/// The attributes of a [`DataLogger`].
pub struct DataLoggerView {
    pub logical_name: ObisCode,
    pub entries: Seq<DataLogEntryView>,
    pub max_entries: u16,
    pub capture_interval: u16,
}

impl View for DataLogger {
    type V = DataLoggerView;

    closed spec fn view(&self) -> DataLoggerView {
        DataLoggerView {
            logical_name: self.logical_name,
            entries: self.entries@.map_values(|e: DataLogEntry| e@),
            max_entries: self.max_entries,
            capture_interval: self.capture_interval,
        }
    }
}

/// The value of a logged entry: time stamp, value, quality.
pub open spec fn log_entry_value(e: DataLogEntryView) -> DataView {
    DataView::Structure(seq![e.timestamp, e.value, DataView::Unsigned(e.quality)])
}

impl DataLoggerView {
    /// The value of an attribute, where the class exposes it.
    pub open spec fn attribute(self, attr: u8) -> Option<DataView> {
        match attr {
            1 => Some(logical_name_value(self.logical_name)),
            2 => Some(DataView::Array(self.entries.map_values(|e: DataLogEntryView| log_entry_value(e)))),
            3 => Some(DataView::LongUnsigned(self.entries.len() as u16)),
            4 => Some(DataView::LongUnsigned(self.max_entries)),
            5 => Some(DataView::LongUnsigned(self.capture_interval)),
            _ => None,
        }
    }

    /// Logging `value`: refused when full, otherwise appended with an
    /// all-zero time stamp and quality 0.
    pub open spec fn log(self, value: DataView) -> (bool, DataLoggerView) {
        if self.entries.len() >= self.max_entries {
            (false, self)
        } else {
            (true, DataLoggerView {
                entries: self.entries.push(
                    DataLogEntryView { timestamp: DataView::DateTime(Seq::new(12, |i: int| 0u8)), value, quality: 0 },
                ),
                ..self
            })
        }
    }

    /// Writing attribute `attr` with the decoded value `d` (`None` where
    /// decoding failed): the outcome and the new attributes.
    pub open spec fn write(self, attr: u8, d: Option<DataView>) -> (Result<(), CosemObjectError>, DataLoggerView) {
        match attr {
            5 => match d {
                Some(DataView::LongUnsigned(v)) => (Ok(()), DataLoggerView { capture_interval: v, ..self }),
                _ => (Err(CosemObjectError::InvalidData), self),
            },
            _ => (Err(CosemObjectError::AttributeNotSupported(attr)), self),
        }
    }
}

impl DataLogger {
    /// A logger for up to 1000 entries, capturing every 60 seconds.
    pub fn new(logical_name: ObisCode) -> (r: DataLogger)
        ensures
            r@ == (DataLoggerView { logical_name, entries: Seq::empty(), max_entries: 1000, capture_interval: 60 }),
    {
        let r = DataLogger { logical_name, entries: Vec::new(), max_entries: 1000, capture_interval: 60 };
        assert(r@.entries =~= Seq::empty());
        r
    }

    pub fn with_capacity(logical_name: ObisCode, max_entries: u16) -> (r: DataLogger)
        ensures
            r@ == (DataLoggerView { logical_name, entries: Seq::empty(), max_entries, capture_interval: 60 }),
    {
        let r = DataLogger { logical_name, entries: Vec::new(), max_entries, capture_interval: 60 };
        assert(r@.entries =~= Seq::empty());
        r
    }

    /// Logs `value` unless the log is full; returns whether it was logged.
    pub fn log(&mut self, value: DlmsData) -> (r: bool)
        ensures
            (r, final(self)@) == old(self)@.log(value@),
    {
        if self.entries.len() >= self.max_entries as usize {
            return false;
        }
        let timestamp = zero_date_time();
        let e = DataLogEntry { timestamp, value, quality: 0 };
        self.entries.push(e);
        proof {
            assert(timestamp@ == DataView::DateTime(Seq::new(12, |i: int| 0u8)));
            assert(self.entries@.map_values(|e: DataLogEntry| e@) =~= old(self)@.entries.push(e@));
        }
        true
    }

    /// The entry at position `index`, oldest first.
    pub fn get_entry(&self, index: usize) -> (r: Option<&DataLogEntry>)
        ensures
            match r {
                Some(e) => index < self@.entries.len() && e@ == self@.entries[index as int],
                None => index >= self@.entries.len(),
            },
    {
        if index < self.entries.len() {
            Some(&self.entries[index])
        } else {
            None
        }
    }

    pub fn entry_count(&self) -> (r: usize)
        ensures
            r == self@.entries.len(),
    {
        self.entries.len()
    }

    pub fn clear(&mut self)
        ensures
            final(self)@ == (DataLoggerView { entries: Seq::empty(), ..old(self)@ }),
    {
        self.entries.clear();
        assert(self.entries@.map_values(|e: DataLogEntry| e@) =~= Seq::empty());
    }

    pub fn capture_interval(&self) -> (r: u16)
        ensures
            r == self@.capture_interval,
    {
        self.capture_interval
    }

    pub fn set_capture_interval(&mut self, interval: u16)
        ensures
            final(self)@ == (DataLoggerView { capture_interval: interval, ..old(self)@ }),
    {
        self.capture_interval = interval;
    }

    /// The newest entry.
    pub fn get_latest(&self) -> (r: Option<&DataLogEntry>)
        ensures
            match r {
                Some(e) => self@.entries.len() > 0 && e@ == self@.entries.last(),
                None => self@.entries.len() == 0,
            },
    {
        let n = self.entries.len();
        if n > 0 {
            Some(&self.entries[n - 1])
        } else {
            None
        }
    }

    pub fn class_id(&self) -> (r: u16)
        ensures
            r == 207,
    {
        207
    }

    pub fn logical_name(&self) -> (r: ObisCode)
        ensures
            r == self@.logical_name,
    {
        self.logical_name
    }

    pub fn attribute_count(&self) -> (r: u8)
        ensures
            r == 6,
    {
        6
    }

    pub fn method_count(&self) -> (r: u8)
        ensures
            r == 2,
    {
        2
    }

    /// The value of attribute `attr`, for the A-XDR encoder.
    pub fn attribute_data(&self, attr: u8) -> (r: Option<DlmsData>)
        ensures
            opt_view(r) == self@.attribute(attr),
    {
        match attr {
            1 => Some(logical_name_data(&self.logical_name)),
            2 => {
                let mut items: Vec<DlmsData> = Vec::new();
                let mut i: usize = 0;
                while i < self.entries.len()
                    invariant
                        i <= self.entries@.len(),
                        items@.len() == i,
                        forall|j: int| 0 <= j < i ==> (#[trigger] items@[j])@ == log_entry_value(self.entries@[j]@),
                    decreases self.entries@.len() - i,
                {
                    let e = &self.entries[i];
                    let fields = vec![e.timestamp.copy(), e.value.copy(), DlmsData::Unsigned(e.quality)];
                    proof {
                        lemma_items_view_eq(fields@, seq![e.timestamp@, e.value@, DataView::Unsigned(e.quality)]);
                    }
                    items.push(DlmsData::Structure(fields));
                    i = i + 1;
                }
                proof {
                    lemma_items_view_eq(items@, self@.entries.map_values(|e: DataLogEntryView| log_entry_value(e)));
                }
                Some(DlmsData::Array(items))
            },
            3 => Some(DlmsData::LongUnsigned(self.entries.len() as u16)),
            4 => Some(DlmsData::LongUnsigned(self.max_entries)),
            5 => Some(DlmsData::LongUnsigned(self.capture_interval)),
            _ => None,
        }
    }

    /// Writes attribute `attr` from the value the A-XDR decoder produced
    /// (`None` where decoding failed).
    pub fn apply_attribute(&mut self, attr: u8, decoded: Option<DlmsData>) -> (r: Result<(), CosemObjectError>)
        ensures
            (r, final(self)@) == old(self)@.write(attr, opt_view(decoded)),
    {
        match attr {
            5 => match decoded {
                Some(DlmsData::LongUnsigned(v)) => {
                    self.capture_interval = v;
                    Ok(())
                },
                _ => Err(CosemObjectError::InvalidData),
            },
            _ => Err(CosemObjectError::AttributeNotSupported(attr)),
        }
    }
}

/// A logged value is the newest entry, and logging never takes the number
/// of entries past the limit.
pub proof fn lemma_log_then_latest(v: DataLoggerView, value: DataView)
    requires
        v.entries.len() <= v.max_entries,
    ensures
        v.log(value).1.entries.len() <= v.max_entries,
        v.log(value).0 <==> v.entries.len() < v.max_entries,
        v.log(value).0 ==> v.log(value).1.entries.last().value == value
            && is_zero_date_time(v.log(value).1.entries.last().timestamp),
        v.log(value).0 ==> v.log(value).1.entries.drop_last() == v.entries,
{
    if v.log(value).0 {
        assert(v.log(value).1.entries.drop_last() =~= v.entries);
    }
}

/// A value accepted for the capture interval is read back unchanged.
pub proof fn lemma_read_back(v: DataLoggerView, attr: u8, d: DataView)
    requires
        v.write(attr, Some(d)).0 is Ok,
    ensures
        v.write(attr, Some(d)).1.attribute(attr) == Some(d),
{
}

} // verus!
