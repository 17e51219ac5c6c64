//! Limiter (class 71) in its basic form: thresholds and the emergency flag.

use vstd::prelude::*;
use crate::cosem::{
    logical_name_data, logical_name_value, opt_view, same_kind, CosemObjectError, DataView,
    DlmsData, ObisCode,
};

verus! {

/// Limiter: a monitored value, its thresholds and durations, and the emergency profile flag.
pub struct Limiter {
    logical_name: ObisCode,
    monitored_value: DlmsData,
    threshold_normal: DlmsData,
    threshold_over: DlmsData,
    threshold_under: DlmsData,
    min_over_duration: u32,
    min_under_duration: u32,
    emergency_profile_active: bool,
}

/// The attributes of a [`Limiter`].
pub struct LimiterView {
    pub logical_name: ObisCode,
    pub monitored_value: DataView,
    pub threshold_normal: DataView,
    pub threshold_over: DataView,
    pub threshold_under: DataView,
    /// Seconds.
    pub min_over_duration: u32,
    /// Seconds.
    pub min_under_duration: u32,
    pub emergency_profile_active: bool,
}

impl View for Limiter {
    type V = LimiterView;

    closed spec fn view(&self) -> LimiterView {
        LimiterView {
            logical_name: self.logical_name,
            monitored_value: self.monitored_value@,
            threshold_normal: self.threshold_normal@,
            threshold_over: self.threshold_over@,
            threshold_under: self.threshold_under@,
            min_over_duration: self.min_over_duration,
            min_under_duration: self.min_under_duration,
            emergency_profile_active: self.emergency_profile_active,
        }
    }
}

impl LimiterView {
    /// The value of an attribute, where the class exposes it.
    pub open spec fn attribute(self, attr: u8) -> Option<DataView> {
        match attr {
            1 => Some(logical_name_value(self.logical_name)),
            2 => Some(self.monitored_value),
            3 => Some(self.threshold_normal),
            4 => Some(self.threshold_over),
            5 => Some(self.threshold_under),
            6 => Some(DataView::DoubleLongUnsigned(self.min_over_duration)),
            7 => Some(DataView::DoubleLongUnsigned(self.min_under_duration)),
            11 => Some(DataView::Boolean(self.emergency_profile_active)),
            _ => None,
        }
    }

    /// Writing attribute `attr` with the decoded value `d` (`None` where
    /// decoding failed): the outcome and the new attributes.
    pub open spec fn write(self, attr: u8, d: Option<DataView>) -> (Result<(), CosemObjectError>, LimiterView) {
        match attr {
            2 => match d {
                Some(v) => (Ok(()), LimiterView { monitored_value: v, ..self }),
                None => (Err(CosemObjectError::InvalidData), self),
            },
            _ => (Err(CosemObjectError::AttributeNotSupported(attr)), self),
        }
    }
}

impl Limiter {
    pub fn new(logical_name: ObisCode) -> (r: Limiter)
        ensures
            r@ == (LimiterView {
                logical_name: logical_name,
                monitored_value: DataView::DoubleLong(0),
                threshold_normal: DataView::DoubleLong(100),
                threshold_over: DataView::DoubleLong(120),
                threshold_under: DataView::DoubleLong(0),
                min_over_duration: 60,
                min_under_duration: 60,
                emergency_profile_active: false,
            }),
    {
        Limiter {
            logical_name: logical_name,
            monitored_value: DlmsData::DoubleLong(0),
            threshold_normal: DlmsData::DoubleLong(100),
            threshold_over: DlmsData::DoubleLong(120),
            threshold_under: DlmsData::DoubleLong(0),
            min_over_duration: 60,
            min_under_duration: 60,
            emergency_profile_active: false,
        }
    }

    pub fn monitored_value(&self) -> (r: &DlmsData)
        ensures
            r@ == self@.monitored_value,
    {
        &self.monitored_value
    }

    pub fn emergency_active(&self) -> (r: bool)
        ensures
            r == self@.emergency_profile_active,
    {
        self.emergency_profile_active
    }

    pub fn set_monitored_value(&mut self, v: DlmsData)
        ensures
            final(self)@ == (LimiterView { monitored_value: v@, ..old(self)@ }),
    {
        self.monitored_value = v;
    }

    pub fn set_emergency_active(&mut self, a: bool)
        ensures
            final(self)@ == (LimiterView { emergency_profile_active: a, ..old(self)@ }),
    {
        self.emergency_profile_active = a;
    }

    pub fn class_id(&self) -> (r: u16)
        ensures
            r == 71,
    {
        71
    }

    pub fn logical_name(&self) -> (r: ObisCode)
        ensures
            r == self@.logical_name,
    {
        self.logical_name
    }

    pub fn attribute_count(&self) -> (r: u8)
        ensures
            r == 11,
    {
        11
    }

    pub fn method_count(&self) -> (r: u8)
        ensures
            r == 0,
    {
        0
    }

    /// The value of attribute `attr`, for the A-XDR encoder.
    pub fn attribute_data(&self, attr: u8) -> (r: Option<DlmsData>)
        ensures
            opt_view(r) == self@.attribute(attr),
    {
        match attr {
            1 => Some(logical_name_data(&self.logical_name)),
            2 => Some(self.monitored_value.copy()),
            3 => Some(self.threshold_normal.copy()),
            4 => Some(self.threshold_over.copy()),
            5 => Some(self.threshold_under.copy()),
            6 => Some(DlmsData::DoubleLongUnsigned(self.min_over_duration)),
            7 => Some(DlmsData::DoubleLongUnsigned(self.min_under_duration)),
            11 => Some(DlmsData::Boolean(self.emergency_profile_active)),
            _ => None,
        }
    }

    /// Writes attribute `attr` from the value the A-XDR decoder produced
    /// (`None` where decoding failed).
    pub fn apply_attribute(&mut self, attr: u8, decoded: Option<DlmsData>) -> (r: Result<(), CosemObjectError>)
        ensures
            (r, final(self)@) == old(self)@.write(attr, opt_view(decoded)),
    {
        match attr {
            2 => {
                match decoded {
                    Some(d) => {
                        self.monitored_value = d;
                        Ok(())
                    },
                    None => Err(CosemObjectError::InvalidData),
                }
            },
            _ => Err(CosemObjectError::AttributeNotSupported(attr)),
        }
    }
}

/// A value accepted for an attribute is read back unchanged, where it is
/// of the kind that the attribute reports.
pub proof fn lemma_read_back(v: LimiterView, attr: u8, d: DataView)
    requires
        v.write(attr, Some(d)).0 is Ok,
        v.attribute(attr) matches Some(cur) && same_kind(d, cur),
    ensures
        v.write(attr, Some(d)).1.attribute(attr) == Some(d),
{
}

} // verus!
