//! Actuator setup: configuration of an actuator.

use vstd::prelude::*;
use crate::cosem::{
    logical_name_data, logical_name_value, opt_view, same_kind, view_as_bool, view_as_i32,
    CosemObjectError, DataView, DlmsData, ObisCode,
};

verus! {

/// Actuator setup: enable flag, default state and automatic switch-off delay.
pub struct ActuatorSetup {
    logical_name: ObisCode,
    enabled: bool,
    default_state: u8,
    auto_off_delay: u32,
}

/// The attributes of a [`ActuatorSetup`].
pub struct ActuatorSetupView {
    pub logical_name: ObisCode,
    pub enabled: bool,
    pub default_state: u8,
    /// Automatic switch-off delay (seconds).
    pub auto_off_delay: u32,
}

impl View for ActuatorSetup {
    type V = ActuatorSetupView;

    closed spec fn view(&self) -> ActuatorSetupView {
        ActuatorSetupView {
            logical_name: self.logical_name,
            enabled: self.enabled,
            default_state: self.default_state,
            auto_off_delay: self.auto_off_delay,
        }
    }
}

impl ActuatorSetupView {
    /// The value of an attribute, where the class exposes it.
    pub open spec fn attribute(self, attr: u8) -> Option<DataView> {
        match attr {
            1 => Some(logical_name_value(self.logical_name)),
            2 => Some(DataView::Boolean(self.enabled)),
            3 => Some(DataView::Enum(self.default_state)),
            4 => Some(DataView::DoubleLongUnsigned(self.auto_off_delay)),
            _ => None,
        }
    }

    /// Writing attribute `attr` with the decoded value `d` (`None` where
    /// decoding failed): the outcome and the new attributes.
    pub open spec fn write(self, attr: u8, d: Option<DataView>) -> (Result<(), CosemObjectError>, ActuatorSetupView) {
        match attr {
            2 => match d {
                Some(v) => match view_as_bool(v) {
                    Some(v) => (Ok(()), ActuatorSetupView { enabled: v, ..self }),
                    None => (Err(CosemObjectError::InvalidData), self),
                },
                None => (Err(CosemObjectError::InvalidData), self),
            },
            4 => match d {
                Some(v) => match view_as_i32(v) {
                    Some(v) => (Ok(()), ActuatorSetupView { auto_off_delay: v as u32, ..self }),
                    None => (Err(CosemObjectError::InvalidData), self),
                },
                None => (Err(CosemObjectError::InvalidData), self),
            },
            _ => (Err(CosemObjectError::AttributeNotSupported(attr)), self),
        }
    }
}

impl ActuatorSetup {
    pub fn new(logical_name: ObisCode) -> (r: ActuatorSetup)
        ensures
            r@ == (ActuatorSetupView {
                logical_name: logical_name,
                enabled: true,
                default_state: 0,
                auto_off_delay: 0,
            }),
    {
        ActuatorSetup {
            logical_name: logical_name,
            enabled: true,
            default_state: 0,
            auto_off_delay: 0,
        }
    }

    pub fn enabled(&self) -> (r: bool)
        ensures
            r == self@.enabled,
    {
        self.enabled
    }

    pub fn default_state(&self) -> (r: u8)
        ensures
            r == self@.default_state,
    {
        self.default_state
    }

    pub fn auto_off_delay(&self) -> (r: u32)
        ensures
            r == self@.auto_off_delay,
    {
        self.auto_off_delay
    }

    pub fn set_enabled(&mut self, enabled: bool)
        ensures
            final(self)@ == (ActuatorSetupView { enabled: enabled, ..old(self)@ }),
    {
        self.enabled = enabled;
    }

    pub fn set_default_state(&mut self, state: u8)
        ensures
            final(self)@ == (ActuatorSetupView { default_state: state, ..old(self)@ }),
    {
        self.default_state = state;
    }

    pub fn set_auto_off_delay(&mut self, delay: u32)
        ensures
            final(self)@ == (ActuatorSetupView { auto_off_delay: delay, ..old(self)@ }),
    {
        self.auto_off_delay = delay;
    }

    pub fn class_id(&self) -> (r: u16)
        ensures
            r == 76,
    {
        76
    }

    pub fn logical_name(&self) -> (r: ObisCode)
        ensures
            r == self@.logical_name,
    {
        self.logical_name
    }

    pub fn attribute_count(&self) -> (r: u8)
        ensures
            r == 5,
    {
        5
    }

    pub fn method_count(&self) -> (r: u8)
        ensures
            r == 0,
    {
        0
    }

    /// The value of attribute `attr`, for the A-XDR encoder.
    pub fn attribute_data(&self, attr: u8) -> (r: Option<DlmsData>)
        ensures
            opt_view(r) == self@.attribute(attr),
    {
        match attr {
            1 => Some(logical_name_data(&self.logical_name)),
            2 => Some(DlmsData::Boolean(self.enabled)),
            3 => Some(DlmsData::Enum(self.default_state)),
            4 => Some(DlmsData::DoubleLongUnsigned(self.auto_off_delay)),
            _ => None,
        }
    }

    /// Writes attribute `attr` from the value the A-XDR decoder produced
    /// (`None` where decoding failed).
    pub fn apply_attribute(&mut self, attr: u8, decoded: Option<DlmsData>) -> (r: Result<(), CosemObjectError>)
        ensures
            (r, final(self)@) == old(self)@.write(attr, opt_view(decoded)),
    {
        match attr {
            2 => {
                match decoded {
                    Some(d) => match d.as_bool() {
                        Some(v) => {
                            self.enabled = v;
                            Ok(())
                        },
                        None => Err(CosemObjectError::InvalidData),
                    },
                    None => Err(CosemObjectError::InvalidData),
                }
            },
            4 => {
                match decoded {
                    Some(d) => match d.as_i32() {
                        Some(v) => {
                            self.auto_off_delay = v as u32;
                            Ok(())
                        },
                        None => Err(CosemObjectError::InvalidData),
                    },
                    None => Err(CosemObjectError::InvalidData),
                }
            },
            _ => Err(CosemObjectError::AttributeNotSupported(attr)),
        }
    }
}

/// A value accepted for an attribute is read back unchanged, where it is
/// of the kind that the attribute reports.
pub proof fn lemma_read_back(v: ActuatorSetupView, attr: u8, d: DataView)
    requires
        v.write(attr, Some(d)).0 is Ok,
        v.attribute(attr) matches Some(cur) && same_kind(d, cur),
    ensures
        v.write(attr, Some(d)).1.attribute(attr) == Some(d),
{
    if let DataView::DoubleLongUnsigned(x) = d {
        assert(((x as i32) as u32) == x) by (bit_vector);
    }
}

} // verus!
