//! Alarm handler (class 203): alarm definitions and the set of active alarms.

use vstd::prelude::*;
use crate::cosem::{
    lemma_items_view, lemma_items_view_eq, logical_name_data, logical_name_value, opt_view,
    CosemObjectError, DataView, DlmsData, ObisCode,
};

verus! {

/// An alarm definition.
pub struct Alarm {
    pub alarm_code: u16,
    pub enabled: bool,
    pub threshold: DlmsData,
    pub hysteresis: DlmsData,
}

/// The value of an [`Alarm`].
pub struct AlarmView {
    pub alarm_code: u16,
    pub enabled: bool,
    pub threshold: DataView,
    pub hysteresis: DataView,
}

impl View for Alarm {
    type V = AlarmView;

    open spec fn view(&self) -> AlarmView {
        AlarmView {
            alarm_code: self.alarm_code,
            enabled: self.enabled,
            threshold: self.threshold@,
            hysteresis: self.hysteresis@,
        }
    }
}

/// Alarm handler: alarm definitions and the codes of the active alarms.
pub struct AlarmHandler {
    logical_name: ObisCode,
    alarms: Vec<Alarm>,
    active_alarms: Vec<u16>,
}

/// The attributes of an [`AlarmHandler`].
pub struct AlarmHandlerView {
    pub logical_name: ObisCode,
    /// Alarm definitions in the order they were added.
    pub alarms: Seq<AlarmView>,
    /// Codes of the active alarms in the order they became active.
    pub active_alarms: Seq<u16>,
}

impl View for AlarmHandler {
    type V = AlarmHandlerView;

    closed spec fn view(&self) -> AlarmHandlerView {
        AlarmHandlerView {
            logical_name: self.logical_name,
            alarms: self.alarms@.map_values(|a: Alarm| a@),
            active_alarms: self.active_alarms@,
        }
    }
}

/// Whether some alarm has code `code`.
pub open spec fn has_alarm(s: Seq<AlarmView>, code: u16) -> bool {
    exists|i: int| 0 <= i < s.len() && #[trigger] s[i].alarm_code == code
}

/// `i` is the first position of an alarm with code `code`.
pub open spec fn first_alarm(s: Seq<AlarmView>, code: u16, i: int) -> bool {
    &&& 0 <= i < s.len()
    &&& s[i].alarm_code == code
    &&& forall|j: int| 0 <= j < i ==> #[trigger] s[j].alarm_code != code
}

/// `s` without any occurrence of `code`, order kept.
pub open spec fn without_code(s: Seq<u16>, code: u16) -> Seq<u16>
    decreases s.len(),
{
    if s.len() == 0 {
        Seq::empty()
    } else if s.last() == code {
        without_code(s.drop_last(), code)
    } else {
        without_code(s.drop_last(), code).push(s.last())
    }
}

/// No code occurs twice.
pub open spec fn all_distinct(s: Seq<u16>) -> bool {
    forall|i: int, j: int| 0 <= i < j < s.len() ==> s[i] != s[j]
}

/// The value of an alarm definition: code, enabled flag, threshold, hysteresis.
pub open spec fn alarm_value(a: AlarmView) -> DataView {
    DataView::Structure(seq![DataView::LongUnsigned(a.alarm_code), DataView::Boolean(a.enabled), a.threshold, a.hysteresis])
}

impl AlarmHandlerView {
    /// The value of an attribute, where the class exposes it.
    pub open spec fn attribute(self, attr: u8) -> Option<DataView> {
        match attr {
            1 => Some(logical_name_value(self.logical_name)),
            2 => Some(DataView::Array(self.alarms.map_values(|a: AlarmView| alarm_value(a)))),
            3 => Some(DataView::Array(self.active_alarms.map_values(|c: u16| DataView::LongUnsigned(c)))),
            4 => Some(DataView::LongUnsigned(self.alarms.len() as u16)),
            _ => None,
        }
    }
}

impl AlarmHandler {
    pub fn new(logical_name: ObisCode) -> (r: AlarmHandler)
        ensures
            r@ == (AlarmHandlerView { logical_name, alarms: Seq::empty(), active_alarms: Seq::empty() }),
    {
        let r = AlarmHandler { logical_name, alarms: Vec::new(), active_alarms: Vec::new() };
        assert(r@.alarms =~= Seq::empty());
        r
    }

    /// Adds an enabled alarm with the given threshold and a zero hysteresis.
    pub fn add_alarm(&mut self, alarm_code: u16, threshold: DlmsData)
        ensures
            final(self)@ == (AlarmHandlerView {
                alarms: old(self)@.alarms.push(
                    AlarmView { alarm_code, enabled: true, threshold: threshold@, hysteresis: DataView::DoubleLong(0) },
                ),
                ..old(self)@
            }),
    {
        let a = Alarm { alarm_code, enabled: true, threshold, hysteresis: DlmsData::DoubleLong(0) };
        self.alarms.push(a);
        assert(self.alarms@.map_values(|a: Alarm| a@) =~= old(self)@.alarms.push(a@));
    }

    /// The position of the first alarm with code `alarm_code`.
    fn find_alarm(&self, alarm_code: u16) -> (r: Option<usize>)
        ensures
            match r {
                Some(i) => first_alarm(self@.alarms, alarm_code, i as int),
                None => !has_alarm(self@.alarms, alarm_code),
            },
    {
        let mut i: usize = 0;
        while i < self.alarms.len()
            invariant
                i <= self.alarms@.len(),
                self@.alarms.len() == self.alarms@.len(),
                forall|j: int| 0 <= j < i ==> #[trigger] self@.alarms[j].alarm_code != alarm_code,
            decreases self.alarms@.len() - i,
        {
            if self.alarms[i].alarm_code == alarm_code {
                return Some(i);
            }
            i = i + 1;
        }
        None
    }

    /// Sets the enabled flag of the first alarm with code `alarm_code`;
    /// returns whether there is one.
    fn set_enabled(&mut self, alarm_code: u16, enabled: bool) -> (r: bool)
        ensures
            r == has_alarm(old(self)@.alarms, alarm_code),
            r ==> exists|i: int| first_alarm(old(self)@.alarms, alarm_code, i) && final(self)@.alarms
                == old(self)@.alarms.update(i, AlarmView { enabled, ..old(self)@.alarms[i] }),
            !r ==> final(self)@.alarms == old(self)@.alarms,
            final(self)@.logical_name == old(self)@.logical_name,
            final(self)@.active_alarms == old(self)@.active_alarms,
    {
        match self.find_alarm(alarm_code) {
            Some(i) => {
                let ghost before = self.alarms@;
                let mut a = self.alarms.remove(i);
                a.enabled = enabled;
                self.alarms.insert(i, a);
                assert(self.alarms@.map_values(|a: Alarm| a@) =~= old(self)@.alarms.update(
                    i as int,
                    AlarmView { enabled, ..old(self)@.alarms[i as int] },
                ));
                true
            },
            None => false,
        }
    }

    /// Enables the first alarm with code `alarm_code`; returns whether there is one.
    pub fn enable_alarm(&mut self, alarm_code: u16) -> (r: bool)
        ensures
            r == has_alarm(old(self)@.alarms, alarm_code),
            r ==> exists|i: int| first_alarm(old(self)@.alarms, alarm_code, i) && final(self)@ == (AlarmHandlerView {
                alarms: old(self)@.alarms.update(i, AlarmView { enabled: true, ..old(self)@.alarms[i] }),
                ..old(self)@
            }),
            !r ==> final(self)@ == old(self)@,
    {
        self.set_enabled(alarm_code, true)
    }

    /// Disables the first alarm with code `alarm_code` and deactivates the
    /// code; returns whether there is such an alarm.
    pub fn disable_alarm(&mut self, alarm_code: u16) -> (r: bool)
        ensures
            r == has_alarm(old(self)@.alarms, alarm_code),
            r ==> exists|i: int| first_alarm(old(self)@.alarms, alarm_code, i) && final(self)@ == (AlarmHandlerView {
                alarms: old(self)@.alarms.update(i, AlarmView { enabled: false, ..old(self)@.alarms[i] }),
                active_alarms: without_code(old(self)@.active_alarms, alarm_code),
                ..old(self)@
            }),
            !r ==> final(self)@ == old(self)@,
    {
        if self.set_enabled(alarm_code, false) {
            self.clear_active_alarm(alarm_code);
            true
        } else {
            false
        }
    }

    fn is_active(&self, alarm_code: u16) -> (r: bool)
        ensures
            r == self@.active_alarms.contains(alarm_code),
    {
        let mut i: usize = 0;
        while i < self.active_alarms.len()
            invariant
                i <= self.active_alarms@.len(),
                forall|j: int| 0 <= j < i ==> self.active_alarms@[j] != alarm_code,
            decreases self.active_alarms@.len() - i,
        {
            if self.active_alarms[i] == alarm_code {
                return true;
            }
            i = i + 1;
        }
        false
    }

    /// Checks the alarm with code `alarm_code` against `value`.  An enabled
    /// alarm is taken to be triggered and becomes active (once); the result
    /// says whether it triggered.  The value itself is not inspected.
    pub fn check_alarm(&mut self, alarm_code: u16, value: &DlmsData) -> (r: bool)
        ensures
            r == exists|i: int| first_alarm(old(self)@.alarms, alarm_code, i) && old(self)@.alarms[i].enabled,
            final(self)@ == (AlarmHandlerView {
                active_alarms: if r && !old(self)@.active_alarms.contains(alarm_code) {
                    old(self)@.active_alarms.push(alarm_code)
                } else {
                    old(self)@.active_alarms
                },
                ..old(self)@
            }),
    {
        match self.find_alarm(alarm_code) {
            Some(i) => {
                if !self.alarms[i].enabled {
                    return false;
                }
                if !self.is_active(alarm_code) {
                    self.active_alarms.push(alarm_code);
                }
                true
            },
            None => false,
        }
    }

    pub fn active_alarms(&self) -> (r: &[u16])
        ensures
            r@ == self@.active_alarms,
    {
        self.active_alarms.as_slice()
    }

    pub fn alarm_count(&self) -> (r: usize)
        ensures
            r == self@.alarms.len(),
    {
        self.alarms.len()
    }

    /// Removes every occurrence of `alarm_code` from the active alarms.
    pub fn clear_active_alarm(&mut self, alarm_code: u16)
        ensures
            final(self)@ == (AlarmHandlerView {
                active_alarms: without_code(old(self)@.active_alarms, alarm_code),
                ..old(self)@
            }),
    {
        let mut kept: Vec<u16> = Vec::new();
        let mut i: usize = 0;
        while i < self.active_alarms.len()
            invariant
                i <= self.active_alarms@.len(),
                kept@ == without_code(self.active_alarms@.take(i as int), alarm_code),
            decreases self.active_alarms@.len() - i,
        {
            let ghost s = self.active_alarms@;
            assert(s.take(i + 1).drop_last() =~= s.take(i as int));
            let c = self.active_alarms[i];
            if c != alarm_code {
                kept.push(c);
            }
            i = i + 1;
        }
        assert(self.active_alarms@.take(i as int) =~= self.active_alarms@);
        self.active_alarms = kept;
    }

    pub fn class_id(&self) -> (r: u16)
        ensures
            r == 203,
    {
        203
    }

    pub fn logical_name(&self) -> (r: ObisCode)
        ensures
            r == self@.logical_name,
    {
        self.logical_name
    }

    pub fn attribute_count(&self) -> (r: u8)
        ensures
            r == 6,
    {
        6
    }

    pub fn method_count(&self) -> (r: u8)
        ensures
            r == 3,
    {
        3
    }

    /// The value of attribute `attr`, for the A-XDR encoder.
    pub fn attribute_data(&self, attr: u8) -> (r: Option<DlmsData>)
        ensures
            opt_view(r) == self@.attribute(attr),
    {
        match attr {
            1 => Some(logical_name_data(&self.logical_name)),
            2 => {
                let mut items: Vec<DlmsData> = Vec::new();
                let mut i: usize = 0;
                while i < self.alarms.len()
                    invariant
                        i <= self.alarms@.len(),
                        items@.len() == i,
                        forall|j: int| 0 <= j < i ==> (#[trigger] items@[j])@ == alarm_value(self.alarms@[j]@),
                    decreases self.alarms@.len() - i,
                {
                    let a = &self.alarms[i];
                    let fields = vec![
                        DlmsData::LongUnsigned(a.alarm_code),
                        DlmsData::Boolean(a.enabled),
                        a.threshold.copy(),
                        a.hysteresis.copy(),
                    ];
                    proof {
                        lemma_items_view_eq(
                            fields@,
                            seq![DataView::LongUnsigned(a.alarm_code), DataView::Boolean(a.enabled), a.threshold@, a.hysteresis@],
                        );
                    }
                    items.push(DlmsData::Structure(fields));
                    i = i + 1;
                }
                proof {
                    lemma_items_view_eq(items@, self@.alarms.map_values(|a: AlarmView| alarm_value(a)));
                }
                Some(DlmsData::Array(items))
            },
            3 => {
                let mut items: Vec<DlmsData> = Vec::new();
                let mut i: usize = 0;
                while i < self.active_alarms.len()
                    invariant
                        i <= self.active_alarms@.len(),
                        items@.len() == i,
                        forall|j: int| 0 <= j < i ==> (#[trigger] items@[j])@ == DataView::LongUnsigned(self.active_alarms@[j]),
                    decreases self.active_alarms@.len() - i,
                {
                    items.push(DlmsData::LongUnsigned(self.active_alarms[i]));
                    i = i + 1;
                }
                proof {
                    lemma_items_view_eq(items@, self@.active_alarms.map_values(|c: u16| DataView::LongUnsigned(c)));
                }
                Some(DlmsData::Array(items))
            },
            4 => Some(DlmsData::LongUnsigned(self.alarms.len() as u16)),
            _ => None,
        }
    }

    /// No attribute is writable; every write is refused as attribute 0.
    pub fn apply_attribute(&mut self, attr: u8, decoded: Option<DlmsData>) -> (r: Result<(), CosemObjectError>)
        ensures
            r == Err::<(), CosemObjectError>(CosemObjectError::AttributeNotSupported(0)),
            final(self)@ == old(self)@,
    {
        Err(CosemObjectError::AttributeNotSupported(0))
    }
}

/// `without_code` keeps exactly the elements other than `code`.
pub proof fn lemma_without_code(s: Seq<u16>, code: u16)
    ensures
        !without_code(s, code).contains(code),
        forall|c: u16| c != code ==> (without_code(s, code).contains(c) <==> s.contains(c)),
        all_distinct(s) ==> all_distinct(without_code(s, code)),
    decreases s.len(),
{
    if s.len() > 0 {
        lemma_without_code(s.drop_last(), code);
        let r = without_code(s.drop_last(), code);
        assert forall|c: u16| c != code implies (without_code(s, code).contains(c) <==> s.contains(c)) by {
            if s.contains(c) {
                let k = choose|k: int| 0 <= k < s.len() && s[k] == c;
                if k < s.len() - 1 {
                    assert(s.drop_last()[k] == c);
                }
            }
            if s.drop_last().contains(c) {
                let k = choose|k: int| 0 <= k < s.drop_last().len() && s.drop_last()[k] == c;
                assert(s[k] == c);
            }
            if s.last() != code {
                assert(r.push(s.last()).last() == s.last());
                if r.push(s.last()).contains(c) && c != s.last() {
                    let k = choose|k: int| 0 <= k < r.push(s.last()).len() && r.push(s.last())[k] == c;
                    assert(r[k] == c);
                }
                if r.contains(c) {
                    let k = choose|k: int| 0 <= k < r.len() && r[k] == c;
                    assert(r.push(s.last())[k] == c);
                }
            }
        }
        if s.last() != code {
            if r.push(s.last()).contains(code) {
                let k = choose|k: int| 0 <= k < r.push(s.last()).len() && r.push(s.last())[k] == code;
                assert(r[k] == code);
            }
            if all_distinct(s) {
                assert(all_distinct(s.drop_last()));
                assert(!s.drop_last().contains(s.last())) by {
                    if s.drop_last().contains(s.last()) {
                        let k = choose|k: int| 0 <= k < s.drop_last().len() && s.drop_last()[k] == s.last();
                        assert(s[k] == s[s.len() - 1]);
                    }
                }
                assert(!r.contains(s.last()));
                assert forall|i: int, j: int| 0 <= i < j < r.push(s.last()).len() implies r.push(s.last())[i]
                    != r.push(s.last())[j] by {
                    if j == r.len() {
                        assert(r.contains(r[i]));
                    }
                }
            }
        } else if all_distinct(s) {
            assert(all_distinct(s.drop_last()));
        }
    }
}

/// Checking an alarm never makes a code active twice, and clearing or
/// disabling keeps that so: the active alarms stay free of duplicates.
pub proof fn lemma_active_alarms_distinct(v: AlarmHandlerView, code: u16, triggered: bool)
    requires
        all_distinct(v.active_alarms),
    ensures
        all_distinct(
            if triggered && !v.active_alarms.contains(code) {
                v.active_alarms.push(code)
            } else {
                v.active_alarms
            },
        ),
        all_distinct(without_code(v.active_alarms, code)),
{
    lemma_without_code(v.active_alarms, code);
    if triggered && !v.active_alarms.contains(code) {
        let s = v.active_alarms.push(code);
        assert forall|i: int, j: int| 0 <= i < j < s.len() implies s[i] != s[j] by {
            if j == s.len() - 1 {
                assert(v.active_alarms[i] == s[i]);
            }
        }
    }
}

/// After an alarm is disabled its code is not active; after an enabled
/// alarm is checked its code is active.
pub proof fn lemma_disable_deactivates(v: AlarmHandlerView, code: u16)
    ensures
        !without_code(v.active_alarms, code).contains(code),
        (exists|i: int| first_alarm(v.alarms, code, i) && v.alarms[i].enabled) ==> (
            if !v.active_alarms.contains(code) {
                v.active_alarms.push(code)
            } else {
                v.active_alarms
            }).contains(code),
{
    lemma_without_code(v.active_alarms, code);
    assert(v.active_alarms.push(code)[v.active_alarms.len() as int] == code);
}

} // verus!
