//! Load profile switch: selects the active load profile.

use vstd::prelude::*;
use crate::cosem::{
    copy_items, items_view, logical_name_data, logical_name_value, opt_view, same_kind,
    view_as_i32, view_as_u8, CosemObjectError, DataView, DlmsData, ObisCode,
};

verus! {

/// Load profile switch: the active profile, the profile list and the capture period.
pub struct UtilityTables {
    logical_name: ObisCode,
    active_profile: u8,
    profiles: Vec<DlmsData>,
    period: u32,
}

/// The attributes of a [`UtilityTables`].
pub struct UtilityTablesView {
    pub logical_name: ObisCode,
    pub active_profile: u8,
    pub profiles: Seq<DataView>,
    /// Capture period (seconds).
    pub period: u32,
}

impl View for UtilityTables {
    type V = UtilityTablesView;

    closed spec fn view(&self) -> UtilityTablesView {
        UtilityTablesView {
            logical_name: self.logical_name,
            active_profile: self.active_profile,
            profiles: items_view(self.profiles@),
            period: self.period,
        }
    }
}

impl UtilityTablesView {
    /// The value of an attribute, where the class exposes it.
    pub open spec fn attribute(self, attr: u8) -> Option<DataView> {
        match attr {
            1 => Some(logical_name_value(self.logical_name)),
            2 => Some(DataView::Enum(self.active_profile)),
            3 => Some(DataView::Array(self.profiles)),
            4 => Some(DataView::DoubleLongUnsigned(self.period)),
            _ => None,
        }
    }

    /// Writing attribute `attr` with the decoded value `d` (`None` where
    /// decoding failed): the outcome and the new attributes.
    pub open spec fn write(self, attr: u8, d: Option<DataView>) -> (Result<(), CosemObjectError>, UtilityTablesView) {
        match attr {
            2 => match d {
                Some(v) => match view_as_u8(v) {
                    Some(v) => (Ok(()), UtilityTablesView { active_profile: v, ..self }),
                    None => (Err(CosemObjectError::InvalidData), self),
                },
                None => (Err(CosemObjectError::InvalidData), self),
            },
            4 => match d {
                Some(v) => match view_as_i32(v) {
                    Some(v) => (Ok(()), UtilityTablesView { period: v as u32, ..self }),
                    None => (Err(CosemObjectError::InvalidData), self),
                },
                None => (Err(CosemObjectError::InvalidData), self),
            },
            _ => (Err(CosemObjectError::AttributeNotSupported(attr)), self),
        }
    }
}

impl UtilityTables {
    pub fn new(logical_name: ObisCode) -> (r: UtilityTables)
        ensures
            r@ == (UtilityTablesView {
                logical_name: logical_name,
                active_profile: 0,
                profiles: Seq::<DataView>::empty(),
                period: 60,
            }),
    {
        UtilityTables {
            logical_name: logical_name,
            active_profile: 0,
            profiles: Vec::new(),
            period: 60,
        }
    }

    pub fn active_profile(&self) -> (r: u8)
        ensures
            r == self@.active_profile,
    {
        self.active_profile
    }

    pub fn profiles(&self) -> (r: &[DlmsData])
        ensures
            items_view(r@) == self@.profiles,
    {
        self.profiles.as_slice()
    }

    pub fn period(&self) -> (r: u32)
        ensures
            r == self@.period,
    {
        self.period
    }

    pub fn set_active_profile(&mut self, profile: u8)
        ensures
            final(self)@ == (UtilityTablesView { active_profile: profile, ..old(self)@ }),
    {
        self.active_profile = profile;
    }

    pub fn set_period(&mut self, period: u32)
        ensures
            final(self)@ == (UtilityTablesView { period: period, ..old(self)@ }),
    {
        self.period = period;
    }

    pub fn class_id(&self) -> (r: u16)
        ensures
            r == 90,
    {
        90
    }

    pub fn logical_name(&self) -> (r: ObisCode)
        ensures
            r == self@.logical_name,
    {
        self.logical_name
    }

    pub fn attribute_count(&self) -> (r: u8)
        ensures
            r == 4,
    {
        4
    }

    pub fn method_count(&self) -> (r: u8)
        ensures
            r == 0,
    {
        0
    }

    /// The value of attribute `attr`, for the A-XDR encoder.
    pub fn attribute_data(&self, attr: u8) -> (r: Option<DlmsData>)
        ensures
            opt_view(r) == self@.attribute(attr),
    {
        match attr {
            1 => Some(logical_name_data(&self.logical_name)),
            2 => Some(DlmsData::Enum(self.active_profile)),
            3 => Some(DlmsData::Array(copy_items(&self.profiles))),
            4 => Some(DlmsData::DoubleLongUnsigned(self.period)),
            _ => None,
        }
    }

    /// Writes attribute `attr` from the value the A-XDR decoder produced
    /// (`None` where decoding failed).
    pub fn apply_attribute(&mut self, attr: u8, decoded: Option<DlmsData>) -> (r: Result<(), CosemObjectError>)
        ensures
            (r, final(self)@) == old(self)@.write(attr, opt_view(decoded)),
    {
        match attr {
            2 => {
                match decoded {
                    Some(d) => match d.as_u8() {
                        Some(v) => {
                            self.active_profile = v;
                            Ok(())
                        },
                        None => Err(CosemObjectError::InvalidData),
                    },
                    None => Err(CosemObjectError::InvalidData),
                }
            },
            4 => {
                match decoded {
                    Some(d) => match d.as_i32() {
                        Some(v) => {
                            self.period = v as u32;
                            Ok(())
                        },
                        None => Err(CosemObjectError::InvalidData),
                    },
                    None => Err(CosemObjectError::InvalidData),
                }
            },
            _ => Err(CosemObjectError::AttributeNotSupported(attr)),
        }
    }
}

/// A value accepted for an attribute is read back unchanged, where it is
/// of the kind that the attribute reports.
pub proof fn lemma_read_back(v: UtilityTablesView, attr: u8, d: DataView)
    requires
        v.write(attr, Some(d)).0 is Ok,
        v.attribute(attr) matches Some(cur) && same_kind(d, cur),
    ensures
        v.write(attr, Some(d)).1.attribute(attr) == Some(d),
{
    if let DataView::DoubleLongUnsigned(x) = d {
        assert(((x as i32) as u32) == x) by (bit_vector);
    }
}

} // verus!
