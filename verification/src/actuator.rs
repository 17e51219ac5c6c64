//! IC75 Actuator: a switchable output with a set value.

use vstd::prelude::*;
use crate::cosem::{
    logical_name_data, logical_name_value, opt_view, reply_view, view_as_u8, CosemObjectError, DataView, DlmsData, ObisCode,
};

verus! {

/// The state of an actuator.
#[derive(Debug, Clone, Copy, PartialEq, Eq, Structural)]
pub enum ActuatorState {
    Off,
    On,
    Fault,
}

/// The state for a state code: 0 is off, 1 is on, anything else a fault.
pub open spec fn actuator_state_of(v: u8) -> ActuatorState {
    match v {
        0 => ActuatorState::Off,
        1 => ActuatorState::On,
        _ => ActuatorState::Fault,
    }
}

/// The code of a state.
pub open spec fn actuator_state_code(s: ActuatorState) -> u8 {
    match s {
        ActuatorState::Off => 0,
        ActuatorState::On => 1,
        ActuatorState::Fault => 2,
    }
}

fn state_from_code(v: u8) -> (r: ActuatorState)
    ensures
        r == actuator_state_of(v),
{
    match v {
        0 => ActuatorState::Off,
        1 => ActuatorState::On,
        _ => ActuatorState::Fault,
    }
}

fn state_code(s: ActuatorState) -> (r: u8)
    ensures
        r == actuator_state_code(s),
{
    match s {
        ActuatorState::Off => 0,
        ActuatorState::On => 1,
        ActuatorState::Fault => 2,
    }
}

/// Actuator: a state and a value.
pub struct Actuator {
    logical_name: ObisCode,
    state: ActuatorState,
    value: DlmsData,
}

/// The attributes of an [`Actuator`].
pub struct ActuatorView {
    pub logical_name: ObisCode,
    pub state: ActuatorState,
    pub value: DataView,
}

impl View for Actuator {
    type V = ActuatorView;

    closed spec fn view(&self) -> ActuatorView {
        ActuatorView { logical_name: self.logical_name, state: self.state, value: self.value@ }
    }
}

impl ActuatorView {
    /// The value of an attribute, where the class exposes it.
    pub open spec fn attribute(self, attr: u8) -> Option<DataView> {
        match attr {
            1 => Some(logical_name_value(self.logical_name)),
            2 => Some(DataView::Enum(actuator_state_code(self.state))),
            3 => Some(self.value),
            _ => None,
        }
    }

    /// Writing attribute `attr` with the decoded value `d` (`None` where
    /// decoding failed): the outcome and the new attributes.
    pub open spec fn write(self, attr: u8, d: Option<DataView>) -> (Result<(), CosemObjectError>, ActuatorView) {
        match attr {
            2 => match d {
                Some(v) => match view_as_u8(v) {
                    Some(code) => (Ok(()), ActuatorView { state: actuator_state_of(code), ..self }),
                    None => (Err(CosemObjectError::InvalidData), self),
                },
                None => (Err(CosemObjectError::InvalidData), self),
            },
            3 => match d {
                Some(v) => (Ok(()), ActuatorView { value: v, ..self }),
                None => (Err(CosemObjectError::InvalidData), self),
            },
            _ => (Err(CosemObjectError::AttributeNotSupported(attr)), self),
        }
    }

    /// Invoking method `method_id` with the decoded argument `d`: the
    /// outcome (the reply bytes) and the new attributes.  Method 1 sets the
    /// state from a state code.
    pub open spec fn invoke(self, method_id: u8, d: Option<DataView>) -> (Result<Seq<u8>, CosemObjectError>, ActuatorView) {
        if method_id == 1 {
            match d {
                Some(v) => match view_as_u8(v) {
                    Some(code) => (Ok(Seq::empty()), ActuatorView { state: actuator_state_of(code), ..self }),
                    None => (Err(CosemObjectError::InvalidData), self),
                },
                None => (Err(CosemObjectError::InvalidData), self),
            }
        } else {
            (Err(CosemObjectError::MethodNotSupported(method_id)), self)
        }
    }
}

impl Actuator {
    /// An actuator that is off, with value 0.
    pub fn new(logical_name: ObisCode) -> (r: Actuator)
        ensures
            r@ == (ActuatorView { logical_name, state: ActuatorState::Off, value: DataView::DoubleLong(0) }),
    {
        Actuator { logical_name, state: ActuatorState::Off, value: DlmsData::DoubleLong(0) }
    }

    pub fn state(&self) -> (r: &ActuatorState)
        ensures
            *r == self@.state,
    {
        &self.state
    }

    pub fn set_state(&mut self, state: ActuatorState)
        ensures
            final(self)@ == (ActuatorView { state, ..old(self)@ }),
    {
        self.state = state;
    }

    pub fn value(&self) -> (r: &DlmsData)
        ensures
            r@ == self@.value,
    {
        &self.value
    }

    pub fn set_value(&mut self, value: DlmsData)
        ensures
            final(self)@ == (ActuatorView { value: value@, ..old(self)@ }),
    {
        self.value = value;
    }

    pub fn class_id(&self) -> (r: u16)
        ensures
            r == 75,
    {
        75
    }

    pub fn logical_name(&self) -> (r: ObisCode)
        ensures
            r == self@.logical_name,
    {
        self.logical_name
    }

    pub fn attribute_count(&self) -> (r: u8)
        ensures
            r == 3,
    {
        3
    }

    pub fn method_count(&self) -> (r: u8)
        ensures
            r == 1,
    {
        1
    }

    /// The value of attribute `attr`, for the A-XDR encoder.
    pub fn attribute_data(&self, attr: u8) -> (r: Option<DlmsData>)
        ensures
            opt_view(r) == self@.attribute(attr),
    {
        match attr {
            1 => Some(logical_name_data(&self.logical_name)),
            2 => Some(DlmsData::Enum(state_code(self.state))),
            3 => Some(self.value.copy()),
            _ => None,
        }
    }

    /// Writes attribute `attr` from the value the A-XDR decoder produced
    /// (`None` where decoding failed).
    pub fn apply_attribute(&mut self, attr: u8, decoded: Option<DlmsData>) -> (r: Result<(), CosemObjectError>)
        ensures
            (r, final(self)@) == old(self)@.write(attr, opt_view(decoded)),
    {
        match attr {
            2 => match decoded {
                Some(d) => match d.as_u8() {
                    Some(code) => {
                        self.state = state_from_code(code);
                        Ok(())
                    },
                    None => Err(CosemObjectError::InvalidData),
                },
                None => Err(CosemObjectError::InvalidData),
            },
            3 => match decoded {
                Some(d) => {
                    self.value = d;
                    Ok(())
                },
                None => Err(CosemObjectError::InvalidData),
            },
            _ => Err(CosemObjectError::AttributeNotSupported(attr)),
        }
    }

    /// Invokes method `method_id` with the argument the A-XDR decoder
    /// produced (`None` where decoding failed).
    pub fn execute_action(&mut self, method_id: u8, decoded: Option<DlmsData>) -> (r: Result<Vec<u8>, CosemObjectError>)
        ensures
            (reply_view(r), final(self)@) == old(self)@.invoke(method_id, opt_view(decoded)),
    {
        if method_id == 1 {
            match decoded {
                Some(d) => match d.as_u8() {
                    Some(code) => {
                        self.state = state_from_code(code);
                        let reply: Vec<u8> = Vec::new();
                        assert(reply@ =~= Seq::<u8>::empty());
                        Ok(reply)
                    },
                    None => Err(CosemObjectError::InvalidData),
                },
                None => Err(CosemObjectError::InvalidData),
            }
        } else {
            Err(CosemObjectError::MethodNotSupported(method_id))
        }
    }
}

/// A state survives its code, and codes 0 to 2 survive their state.
pub proof fn lemma_state_round_trip(s: ActuatorState, v: u8)
    ensures
        actuator_state_of(actuator_state_code(s)) == s,
        v <= 2 ==> actuator_state_code(actuator_state_of(v)) == v,
{
}

/// A state code written to attribute 2 is read back as that code, where it
/// is one of the three states' codes; a value written to attribute 3 is
/// read back unchanged.
pub proof fn lemma_read_back(v: ActuatorView, code: u8, d: DataView)
    requires
        code <= 2,
    ensures
        v.write(2, Some(DataView::Enum(code))).1.attribute(2) == Some(DataView::Enum(code)),
        v.write(3, Some(d)).1.attribute(3) == Some(d),
{
}

} // verus!
