//! Event logger (class 202): a bounded log of numbered events.

use vstd::prelude::*;
use crate::cosem::{
    copy_bytes, is_zero_date_time, lemma_items_view_eq, logical_name_data, logical_name_value, opt_view,
    zero_date_time, CosemObjectError, DataView, DlmsData, ObisCode,
};

verus! {

/// One logged event.
pub struct EventLogEntry {
    pub index: u16,
    pub event_code: u16,
    pub event_timestamp: DlmsData,
    pub event_data: Vec<u8>,
}

/// The value of an [`EventLogEntry`].
pub struct EventLogEntryView {
    pub index: u16,
    pub event_code: u16,
    pub event_timestamp: DataView,
    pub event_data: Seq<u8>,
}

impl View for EventLogEntry {
    type V = EventLogEntryView;

    open spec fn view(&self) -> EventLogEntryView {
        EventLogEntryView {
            index: self.index,
            event_code: self.event_code,
            event_timestamp: self.event_timestamp@,
            event_data: self.event_data@,
        }
    }
}

/// Event logger: the latest events, oldest first, at most `max_entries`.
pub struct EventLogger {
    logical_name: ObisCode,
    entries: Vec<EventLogEntry>,
    max_entries: u16,
    enabled: bool,
}

/// The attributes of an [`EventLogger`].
pub struct EventLoggerView {
    pub logical_name: ObisCode,
    pub entries: Seq<EventLogEntryView>,
    pub max_entries: u16,
    pub enabled: bool,
}

impl View for EventLogger {
    type V = EventLoggerView;

    closed spec fn view(&self) -> EventLoggerView {
        EventLoggerView {
            logical_name: self.logical_name,
            entries: self.entries@.map_values(|e: EventLogEntry| e@),
            max_entries: self.max_entries,
            enabled: self.enabled,
        }
    }
}

/// The value of a logged event: index, code, time stamp, data.
pub open spec fn event_value(e: EventLogEntryView) -> DataView {
    DataView::Structure(
        seq![DataView::LongUnsigned(e.index), DataView::LongUnsigned(e.event_code), e.event_timestamp, DataView::OctetString(e.event_data)],
    )
}

/// `i` is the first position of an event with index `index`.
pub open spec fn first_index(s: Seq<EventLogEntryView>, index: u16, i: int) -> bool {
    &&& 0 <= i < s.len()
    &&& s[i].index == index
    &&& forall|j: int| 0 <= j < i ==> #[trigger] s[j].index != index
}

impl EventLoggerView {
    /// The value of an attribute, where the class exposes it.
    pub open spec fn attribute(self, attr: u8) -> Option<DataView> {
        match attr {
            1 => Some(logical_name_value(self.logical_name)),
            2 => Some(DataView::Array(self.entries.map_values(|e: EventLogEntryView| event_value(e)))),
            3 => Some(DataView::LongUnsigned(self.entries.len() as u16)),
            4 => Some(DataView::LongUnsigned(self.max_entries)),
            5 => Some(DataView::Boolean(self.enabled)),
            _ => None,
        }
    }

    /// The event appended by logging `event_code` with `data`: numbered by
    /// the number of events held before it, with an all-zero time stamp.
    pub open spec fn new_event(self, event_code: u16, data: Seq<u8>) -> EventLogEntryView {
        EventLogEntryView {
            index: self.entries.len() as u16,
            event_code,
            event_timestamp: DataView::DateTime(Seq::new(12, |i: int| 0u8)),
            event_data: data,
        }
    }

    /// The events after logging: the new event appended, and the oldest
    /// dropped when that makes more than `max_entries`.
    pub open spec fn logged(self, event_code: u16, data: Seq<u8>) -> Seq<EventLogEntryView> {
        let s = self.entries.push(self.new_event(event_code, data));
        if s.len() > self.max_entries {
            s.drop_first()
        } else {
            s
        }
    }

    /// The logger keeps at most 100 events, its fixed maximum.
    pub open spec fn wf(self) -> bool {
        self.max_entries == 100 && self.entries.len() <= self.max_entries
    }

    /// Writing attribute `attr` with the decoded value `d` (`None` where
    /// decoding failed): the outcome and the new attributes.
    pub open spec fn write(self, attr: u8, d: Option<DataView>) -> (Result<(), CosemObjectError>, EventLoggerView) {
        match attr {
            5 => match d {
                Some(DataView::Boolean(b)) => (Ok(()), EventLoggerView { enabled: b, ..self }),
                _ => (Err(CosemObjectError::InvalidData), self),
            },
            _ => (Err(CosemObjectError::AttributeNotSupported(attr)), self),
        }
    }
}

impl EventLogger {
    #[verifier::type_invariant]
    spec fn holds_at_most_max(self) -> bool {
        self.max_entries == 100 && self.entries@.len() <= 100
    }

    /// An enabled logger keeping up to 100 events.
    pub fn new(logical_name: ObisCode) -> (r: EventLogger)
        ensures
            r@ == (EventLoggerView { logical_name, entries: Seq::empty(), max_entries: 100, enabled: true }),
    {
        let r = EventLogger { logical_name, entries: Vec::new(), max_entries: 100, enabled: true };
        assert(r@.entries =~= Seq::empty());
        r
    }

    /// Logs an event and returns the index of the newest event held
    /// afterwards (0 when none is held): the number of events held before,
    /// since the logger always keeps its maximum of 100.
    pub fn log_event(&mut self, event_code: u16, data: Vec<u8>) -> (r: u16)
        ensures
            old(self)@.wf(),
            final(self)@.wf(),
            final(self)@ == (EventLoggerView { entries: old(self)@.logged(event_code, data@), ..old(self)@ }),
            r == if final(self)@.entries.len() > 0 {
                final(self)@.entries.last().index
            } else {
                0
            },
            r == old(self)@.entries.len() as u16,
    {
        proof {
            use_type_invariant(&*self);
        }
        let index = self.entries.len() as u16;
        let ghost data_v = data@;
        let timestamp = zero_date_time();
        let e = EventLogEntry { index, event_code, event_timestamp: timestamp, event_data: data };
        let mut entries: Vec<EventLogEntry> = Vec::new();
        std::mem::swap(&mut entries, &mut self.entries);
        entries.push(e);
        proof {
            assert(e@ == old(self)@.new_event(event_code, data_v));
            assert(entries@.map_values(|e: EventLogEntry| e@) =~= old(self)@.entries.push(e@));
        }
        if entries.len() > self.max_entries as usize {
            let ghost before = entries@;
            entries.remove(0);
            assert(entries@.map_values(|e: EventLogEntry| e@) =~= before.map_values(
                |e: EventLogEntry| e@,
            ).drop_first());
        }
        self.entries = entries;
        let n = self.entries.len();
        if n > 0 {
            self.entries[n - 1].index
        } else {
            0
        }
    }

    /// The first event with index `index`.
    pub fn get_entry(&self, index: u16) -> (r: Option<&EventLogEntry>)
        ensures
            match r {
                Some(e) => exists|i: int| first_index(self@.entries, index, i) && e@ == self@.entries[i],
                None => forall|i: int| 0 <= i < self@.entries.len() ==> #[trigger] self@.entries[i].index != index,
            },
    {
        let mut i: usize = 0;
        while i < self.entries.len()
            invariant
                i <= self.entries@.len(),
                self@.entries.len() == self.entries@.len(),
                forall|j: int| 0 <= j < i ==> #[trigger] self@.entries[j].index != index,
            decreases self.entries@.len() - i,
        {
            if self.entries[i].index == index {
                assert(first_index(self@.entries, index, i as int));
                return Some(&self.entries[i]);
            }
            i = i + 1;
        }
        None
    }

    pub fn entry_count(&self) -> (r: usize)
        ensures
            r == self@.entries.len(),
            self@.wf(),
    {
        proof {
            use_type_invariant(self);
        }
        self.entries.len()
    }

    pub fn is_enabled(&self) -> (r: bool)
        ensures
            r == self@.enabled,
    {
        self.enabled
    }

    pub fn set_enabled(&mut self, enabled: bool)
        ensures
            final(self)@ == (EventLoggerView { enabled, ..old(self)@ }),
    {
        proof {
            use_type_invariant(&*self);
        }
        self.enabled = enabled;
    }

    pub fn clear(&mut self)
        ensures
            final(self)@ == (EventLoggerView { entries: Seq::empty(), ..old(self)@ }),
    {
        proof {
            use_type_invariant(&*self);
        }
        self.entries = Vec::new();
        assert(self.entries@.map_values(|e: EventLogEntry| e@) =~= Seq::empty());
    }

    pub fn class_id(&self) -> (r: u16)
        ensures
            r == 202,
    {
        202
    }

    pub fn logical_name(&self) -> (r: ObisCode)
        ensures
            r == self@.logical_name,
    {
        self.logical_name
    }

    pub fn attribute_count(&self) -> (r: u8)
        ensures
            r == 7,
    {
        7
    }

    pub fn method_count(&self) -> (r: u8)
        ensures
            r == 2,
    {
        2
    }

    /// The value of attribute `attr`, for the A-XDR encoder.
    pub fn attribute_data(&self, attr: u8) -> (r: Option<DlmsData>)
        ensures
            opt_view(r) == self@.attribute(attr),
    {
        match attr {
            1 => Some(logical_name_data(&self.logical_name)),
            2 => {
                let mut items: Vec<DlmsData> = Vec::new();
                let mut i: usize = 0;
                while i < self.entries.len()
                    invariant
                        i <= self.entries@.len(),
                        items@.len() == i,
                        forall|j: int| 0 <= j < i ==> (#[trigger] items@[j])@ == event_value(self.entries@[j]@),
                    decreases self.entries@.len() - i,
                {
                    let e = &self.entries[i];
                    let fields = vec![
                        DlmsData::LongUnsigned(e.index),
                        DlmsData::LongUnsigned(e.event_code),
                        e.event_timestamp.copy(),
                        DlmsData::OctetString(copy_bytes(e.event_data.as_slice())),
                    ];
                    proof {
                        lemma_items_view_eq(
                            fields@,
                            seq![DataView::LongUnsigned(e.index), DataView::LongUnsigned(e.event_code), e.event_timestamp@, DataView::OctetString(e.event_data@)],
                        );
                    }
                    items.push(DlmsData::Structure(fields));
                    i = i + 1;
                }
                proof {
                    lemma_items_view_eq(items@, self@.entries.map_values(|e: EventLogEntryView| event_value(e)));
                }
                Some(DlmsData::Array(items))
            },
            3 => Some(DlmsData::LongUnsigned(self.entries.len() as u16)),
            4 => Some(DlmsData::LongUnsigned(self.max_entries)),
            5 => Some(DlmsData::Boolean(self.enabled)),
            _ => None,
        }
    }

    /// Writes attribute `attr` from the value the A-XDR decoder produced
    /// (`None` where decoding failed).
    pub fn apply_attribute(&mut self, attr: u8, decoded: Option<DlmsData>) -> (r: Result<(), CosemObjectError>)
        ensures
            (r, final(self)@) == old(self)@.write(attr, opt_view(decoded)),
    {
        proof {
            use_type_invariant(&*self);
        }
        match attr {
            5 => match decoded {
                Some(DlmsData::Boolean(b)) => {
                    self.enabled = b;
                    Ok(())
                },
                _ => Err(CosemObjectError::InvalidData),
            },
            _ => Err(CosemObjectError::AttributeNotSupported(attr)),
        }
    }
}

/// Logging keeps at most `max_entries` events, keeps the newest event, and
/// numbers it by the count held before it.
pub proof fn lemma_log_bounded(v: EventLoggerView, event_code: u16, data: Seq<u8>)
    requires
        v.entries.len() <= v.max_entries,
        v.max_entries > 0,
    ensures
        v.logged(event_code, data).len() <= v.max_entries,
        v.logged(event_code, data).len() > 0,
        v.logged(event_code, data).last() == v.new_event(event_code, data),
        v.logged(event_code, data).last().index == v.entries.len() as u16,
        is_zero_date_time(v.logged(event_code, data).last().event_timestamp),
{
}

/// On a well-formed logger, logging keeps it well formed, holds one event
/// more up to the maximum of 100 (dropping the oldest beyond it), and
/// numbers the new event, the newest held, by the count held before.
pub proof fn lemma_log_within_maximum(v: EventLoggerView, event_code: u16, data: Seq<u8>)
    requires
        v.wf(),
    ensures
        (EventLoggerView { entries: v.logged(event_code, data), ..v }).wf(),
        v.logged(event_code, data).len() == if v.entries.len() < 100 {
            v.entries.len() + 1
        } else {
            100
        },
        v.logged(event_code, data).last().index == v.entries.len() as u16,
        v.logged(event_code, data).last().event_code == event_code,
        v.logged(event_code, data).last().event_data == data,
        is_zero_date_time(v.logged(event_code, data).last().event_timestamp),
        forall|i: int|
            0 <= i < v.logged(event_code, data).len() - 1 ==> #[trigger] v.logged(event_code, data)[i] == v.entries[i
                + v.entries.len() + 1 - v.logged(event_code, data).len()],
        v.entries.len() == 100 ==> v.logged(event_code, data) == v.entries.drop_first().push(
            v.new_event(event_code, data),
        ),
{
    if v.entries.len() == 100 {
        assert(v.entries.push(v.new_event(event_code, data)).drop_first() =~= v.entries.drop_first().push(
            v.new_event(event_code, data),
        ));
    }
}

/// Logging below the limit keeps every earlier event in place.
pub proof fn lemma_log_keeps_earlier(v: EventLoggerView, event_code: u16, data: Seq<u8>)
    requires
        v.entries.len() < v.max_entries,
    ensures
        v.logged(event_code, data) == v.entries.push(v.new_event(event_code, data)),
{
}

/// A value accepted for the enabled flag is read back unchanged.
pub proof fn lemma_read_back(v: EventLoggerView, attr: u8, d: DataView)
    requires
        v.write(attr, Some(d)).0 is Ok,
    ensures
        v.write(attr, Some(d)).1.attribute(attr) == Some(d),
{
}

} // verus!
