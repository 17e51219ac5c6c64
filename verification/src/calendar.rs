//! Calendar (class 204): seasons, week profiles and special days.

use vstd::prelude::*;
use vstd::utf8::encode_utf8;
use crate::cosem::{
    copy_bytes, lemma_items_view_eq, logical_name_data, logical_name_value, opt_view, CosemObjectError,
    DataView, DlmsData, ObisCode,
};

verus! {

/// A season: a name and its start and end dates (day, month, year, ...).
#[derive(Debug, Clone)]
pub struct SeasonEntry {
    pub season_name: String,
    pub start_date: [u8; 5],
    pub end_date: [u8; 5],
}

/// The value of a [`SeasonEntry`].
pub struct SeasonView {
    pub season_name: Seq<char>,
    pub start_date: Seq<u8>,
    pub end_date: Seq<u8>,
}

impl View for SeasonEntry {
    type V = SeasonView;

    open spec fn view(&self) -> SeasonView {
        SeasonView { season_name: self.season_name@, start_date: self.start_date@, end_date: self.end_date@ }
    }
}

/// A week day and the day schedule that applies to it.
#[derive(Debug, Clone, Copy)]
pub struct WeekDayProfile {
    pub day_id: u8,
    pub day_schedule_id: u8,
}

/// Calendar: seasons, week profiles and special days.
pub struct Calendar {
    logical_name: ObisCode,
    seasons: Vec<SeasonEntry>,
    week_profiles: Vec<WeekDayProfile>,
    special_days: Vec<(u16, u8)>,
}

/// The attributes of a [`Calendar`].
pub struct CalendarView {
    pub logical_name: ObisCode,
    pub seasons: Seq<SeasonView>,
    pub week_profiles: Seq<WeekDayProfile>,
    /// (day of year, special day identifier) pairs.
    pub special_days: Seq<(u16, u8)>,
}

impl View for Calendar {
    type V = CalendarView;

    closed spec fn view(&self) -> CalendarView {
        CalendarView {
            logical_name: self.logical_name,
            seasons: self.seasons@.map_values(|s: SeasonEntry| s@),
            week_profiles: self.week_profiles@,
            special_days: self.special_days@,
        }
    }
}

/// The value of a season: name (UTF-8 bytes), start date, end date, as octet-strings.
pub open spec fn season_value(s: SeasonView) -> DataView {
    DataView::Structure(
        seq![DataView::OctetString(encode_utf8(s.season_name)), DataView::OctetString(s.start_date), DataView::OctetString(s.end_date)],
    )
}

/// The value of a week profile entry: day and day schedule identifiers.
pub open spec fn week_profile_value(p: WeekDayProfile) -> DataView {
    DataView::Structure(seq![DataView::Unsigned(p.day_id), DataView::Unsigned(p.day_schedule_id)])
}

/// The value of a special day: day of year and special day identifier.
pub open spec fn special_day_value(d: (u16, u8)) -> DataView {
    DataView::Structure(seq![DataView::LongUnsigned(d.0), DataView::Unsigned(d.1)])
}

/// `i` is the first position of a week profile for day `day_id`.
pub open spec fn first_week_profile(s: Seq<WeekDayProfile>, day_id: u8, i: int) -> bool {
    &&& 0 <= i < s.len()
    &&& s[i].day_id == day_id
    &&& forall|j: int| 0 <= j < i ==> #[trigger] s[j].day_id != day_id
}

impl CalendarView {
    /// The value of an attribute, where the class exposes it.
    pub open spec fn attribute(self, attr: u8) -> Option<DataView> {
        match attr {
            1 => Some(logical_name_value(self.logical_name)),
            2 => Some(DataView::Array(self.seasons.map_values(|s: SeasonView| season_value(s)))),
            3 => Some(DataView::Array(self.week_profiles.map_values(|p: WeekDayProfile| week_profile_value(p)))),
            4 => Some(DataView::Array(self.special_days.map_values(|d: (u16, u8)| special_day_value(d)))),
            _ => None,
        }
    }
}

impl Calendar {
    pub fn new(logical_name: ObisCode) -> (r: Calendar)
        ensures
            r@ == (CalendarView {
                logical_name,
                seasons: Seq::empty(),
                week_profiles: Seq::empty(),
                special_days: Seq::empty(),
            }),
    {
        let r = Calendar { logical_name, seasons: Vec::new(), week_profiles: Vec::new(), special_days: Vec::new() };
        assert(r@.seasons =~= Seq::empty());
        r
    }

    pub fn add_season(&mut self, name: String, start: [u8; 5], end: [u8; 5])
        ensures
            final(self)@ == (CalendarView {
                seasons: old(self)@.seasons.push(SeasonView { season_name: name@, start_date: start@, end_date: end@ }),
                ..old(self)@
            }),
    {
        let s = SeasonEntry { season_name: name, start_date: start, end_date: end };
        self.seasons.push(s);
        assert(self.seasons@.map_values(|s: SeasonEntry| s@) =~= old(self)@.seasons.push(s@));
    }

    pub fn add_week_profile(&mut self, day_id: u8, schedule_id: u8)
        ensures
            final(self)@ == (CalendarView {
                week_profiles: old(self)@.week_profiles.push(WeekDayProfile { day_id, day_schedule_id: schedule_id }),
                ..old(self)@
            }),
    {
        self.week_profiles.push(WeekDayProfile { day_id, day_schedule_id: schedule_id });
    }

    pub fn add_special_day(&mut self, day_of_year: u16, special_day_id: u8)
        ensures
            final(self)@ == (CalendarView {
                special_days: old(self)@.special_days.push((day_of_year, special_day_id)),
                ..old(self)@
            }),
    {
        self.special_days.push((day_of_year, special_day_id));
    }

    pub fn season_count(&self) -> (r: usize)
        ensures
            r == self@.seasons.len(),
    {
        self.seasons.len()
    }

    pub fn week_profile_count(&self) -> (r: usize)
        ensures
            r == self@.week_profiles.len(),
    {
        self.week_profiles.len()
    }

    pub fn special_day_count(&self) -> (r: usize)
        ensures
            r == self@.special_days.len(),
    {
        self.special_days.len()
    }

    /// The first week profile for day `day_id`.
    pub fn get_week_profile(&self, day_id: u8) -> (r: Option<&WeekDayProfile>)
        ensures
            match r {
                Some(p) => exists|i: int| first_week_profile(self@.week_profiles, day_id, i) && *p == self@.week_profiles[i],
                None => forall|i: int| 0 <= i < self@.week_profiles.len() ==> #[trigger] self@.week_profiles[i].day_id != day_id,
            },
    {
        let mut i: usize = 0;
        while i < self.week_profiles.len()
            invariant
                i <= self.week_profiles@.len(),
                forall|j: int| 0 <= j < i ==> #[trigger] self.week_profiles@[j].day_id != day_id,
            decreases self.week_profiles@.len() - i,
        {
            if self.week_profiles[i].day_id == day_id {
                assert(first_week_profile(self@.week_profiles, day_id, i as int));
                return Some(&self.week_profiles[i]);
            }
            i = i + 1;
        }
        None
    }

    pub fn class_id(&self) -> (r: u16)
        ensures
            r == 204,
    {
        204
    }

    pub fn logical_name(&self) -> (r: ObisCode)
        ensures
            r == self@.logical_name,
    {
        self.logical_name
    }

    pub fn attribute_count(&self) -> (r: u8)
        ensures
            r == 5,
    {
        5
    }

    pub fn method_count(&self) -> (r: u8)
        ensures
            r == 0,
    {
        0
    }

    fn seasons_data(&self) -> (r: DlmsData)
        ensures
            r@ == DataView::Array(self@.seasons.map_values(|s: SeasonView| season_value(s))),
    {
        let mut items: Vec<DlmsData> = Vec::new();
        let mut i: usize = 0;
        while i < self.seasons.len()
            invariant
                i <= self.seasons@.len(),
                items@.len() == i,
                forall|j: int| 0 <= j < i ==> (#[trigger] items@[j])@ == season_value(self.seasons@[j]@),
            decreases self.seasons@.len() - i,
        {
            let s = &self.seasons[i];
            let name = copy_bytes(s.season_name.as_str().as_bytes());
            let start = copy_bytes(&s.start_date);
            let end = copy_bytes(&s.end_date);
            let fields = vec![DlmsData::OctetString(name), DlmsData::OctetString(start), DlmsData::OctetString(end)];
            proof {
                lemma_items_view_eq(
                    fields@,
                    seq![DataView::OctetString(encode_utf8(s.season_name@)), DataView::OctetString(s.start_date@), DataView::OctetString(s.end_date@)],
                );
            }
            items.push(DlmsData::Structure(fields));
            i = i + 1;
        }
        proof {
            lemma_items_view_eq(items@, self@.seasons.map_values(|s: SeasonView| season_value(s)));
        }
        DlmsData::Array(items)
    }

    fn week_profiles_data(&self) -> (r: DlmsData)
        ensures
            r@ == DataView::Array(self@.week_profiles.map_values(|p: WeekDayProfile| week_profile_value(p))),
    {
        let mut items: Vec<DlmsData> = Vec::new();
        let mut i: usize = 0;
        while i < self.week_profiles.len()
            invariant
                i <= self.week_profiles@.len(),
                items@.len() == i,
                forall|j: int| 0 <= j < i ==> (#[trigger] items@[j])@ == week_profile_value(self.week_profiles@[j]),
            decreases self.week_profiles@.len() - i,
        {
            let p = self.week_profiles[i];
            let fields = vec![DlmsData::Unsigned(p.day_id), DlmsData::Unsigned(p.day_schedule_id)];
            proof {
                lemma_items_view_eq(fields@, seq![DataView::Unsigned(p.day_id), DataView::Unsigned(p.day_schedule_id)]);
            }
            items.push(DlmsData::Structure(fields));
            i = i + 1;
        }
        proof {
            lemma_items_view_eq(items@, self@.week_profiles.map_values(|p: WeekDayProfile| week_profile_value(p)));
        }
        DlmsData::Array(items)
    }

    fn special_days_data(&self) -> (r: DlmsData)
        ensures
            r@ == DataView::Array(self@.special_days.map_values(|d: (u16, u8)| special_day_value(d))),
    {
        let mut items: Vec<DlmsData> = Vec::new();
        let mut i: usize = 0;
        while i < self.special_days.len()
            invariant
                i <= self.special_days@.len(),
                items@.len() == i,
                forall|j: int| 0 <= j < i ==> (#[trigger] items@[j])@ == special_day_value(self.special_days@[j]),
            decreases self.special_days@.len() - i,
        {
            let (day, id) = self.special_days[i];
            let fields = vec![DlmsData::LongUnsigned(day), DlmsData::Unsigned(id)];
            proof {
                lemma_items_view_eq(fields@, seq![DataView::LongUnsigned(day), DataView::Unsigned(id)]);
            }
            items.push(DlmsData::Structure(fields));
            i = i + 1;
        }
        proof {
            lemma_items_view_eq(items@, self@.special_days.map_values(|d: (u16, u8)| special_day_value(d)));
        }
        DlmsData::Array(items)
    }

    /// The value of attribute `attr`, for the A-XDR encoder.
    pub fn attribute_data(&self, attr: u8) -> (r: Option<DlmsData>)
        ensures
            opt_view(r) == self@.attribute(attr),
    {
        match attr {
            1 => Some(logical_name_data(&self.logical_name)),
            2 => Some(self.seasons_data()),
            3 => Some(self.week_profiles_data()),
            4 => Some(self.special_days_data()),
            _ => None,
        }
    }

    /// No attribute is writable; every write is refused as attribute 0.
    pub fn apply_attribute(&mut self, attr: u8, decoded: Option<DlmsData>) -> (r: Result<(), CosemObjectError>)
        ensures
            r == Err::<(), CosemObjectError>(CosemObjectError::AttributeNotSupported(0)),
            final(self)@ == old(self)@,
    {
        Err(CosemObjectError::AttributeNotSupported(0))
    }
}

/// A week profile added for a day that had none is the one found for that day.
pub proof fn lemma_added_week_profile_found(s: Seq<WeekDayProfile>, day_id: u8, schedule_id: u8)
    requires
        forall|i: int| 0 <= i < s.len() ==> #[trigger] s[i].day_id != day_id,
    ensures
        first_week_profile(s.push(WeekDayProfile { day_id, day_schedule_id: schedule_id }), day_id, s.len() as int),
        s.push(WeekDayProfile { day_id, day_schedule_id: schedule_id })[s.len() as int].day_schedule_id == schedule_id,
{
    let t = s.push(WeekDayProfile { day_id, day_schedule_id: schedule_id });
    assert forall|j: int| 0 <= j < s.len() implies #[trigger] t[j].day_id != day_id by {
        assert(t[j] == s[j]);
    }
}

} // verus!
