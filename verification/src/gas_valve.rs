//! IC81 Gas valve: the state of a gas valve.

use vstd::prelude::*;
use crate::cosem::{
    logical_name_data, logical_name_value, opt_view, reply_view, view_as_u8, CosemObjectError, DataView, DlmsData,
    ObisCode,
};

verus! {

/// The state of a gas valve.
#[derive(Debug, Clone, Copy, PartialEq, Eq, Structural)]
pub enum GasValveState {
    Closed,
    Open,
    Fault,
}

/// The state for a state code: 0 is closed, 1 is open, anything else a fault.
pub open spec fn valve_state_of(v: u8) -> GasValveState {
    match v {
        0 => GasValveState::Closed,
        1 => GasValveState::Open,
        _ => GasValveState::Fault,
    }
}

/// The code of a state.
pub open spec fn valve_state_code(s: GasValveState) -> u8 {
    match s {
        GasValveState::Closed => 0,
        GasValveState::Open => 1,
        GasValveState::Fault => 2,
    }
}

fn state_from_code(v: u8) -> (r: GasValveState)
    ensures
        r == valve_state_of(v),
{
    match v {
        0 => GasValveState::Closed,
        1 => GasValveState::Open,
        _ => GasValveState::Fault,
    }
}

fn state_code(s: GasValveState) -> (r: u8)
    ensures
        r == valve_state_code(s),
{
    match s {
        GasValveState::Closed => 0,
        GasValveState::Open => 1,
        GasValveState::Fault => 2,
    }
}

/// Gas valve: its state.
pub struct GasValve {
    logical_name: ObisCode,
    state: GasValveState,
}

/// The attributes of a [`GasValve`].
pub struct GasValveView {
    pub logical_name: ObisCode,
    pub state: GasValveState,
}

impl View for GasValve {
    type V = GasValveView;

    closed spec fn view(&self) -> GasValveView {
        GasValveView { logical_name: self.logical_name, state: self.state }
    }
}

impl GasValveView {
    /// The value of an attribute, where the class exposes it.
    pub open spec fn attribute(self, attr: u8) -> Option<DataView> {
        match attr {
            1 => Some(logical_name_value(self.logical_name)),
            2 => Some(DataView::Enum(valve_state_code(self.state))),
            _ => None,
        }
    }

    /// The state set from a decoded value (`None` where decoding failed),
    /// or the error where the value holds no state code.
    pub open spec fn state_from(self, d: Option<DataView>) -> (Result<(), CosemObjectError>, GasValveView) {
        match d {
            Some(v) => match view_as_u8(v) {
                Some(code) => (Ok(()), GasValveView { state: valve_state_of(code), ..self }),
                None => (Err(CosemObjectError::InvalidData), self),
            },
            None => (Err(CosemObjectError::InvalidData), self),
        }
    }

    /// Writing attribute `attr` with the decoded value `d`: the outcome and
    /// the new attributes.
    pub open spec fn write(self, attr: u8, d: Option<DataView>) -> (Result<(), CosemObjectError>, GasValveView) {
        match attr {
            2 => self.state_from(d),
            _ => (Err(CosemObjectError::AttributeNotSupported(attr)), self),
        }
    }

    /// Invoking method `method_id` with the decoded argument `d`: method 1
    /// sets the state and replies with no bytes.
    pub open spec fn invoke(self, method_id: u8, d: Option<DataView>) -> (Result<Seq<u8>, CosemObjectError>, GasValveView) {
        if method_id == 1 {
            match self.state_from(d).0 {
                Ok(_) => (Ok(Seq::empty()), self.state_from(d).1),
                Err(e) => (Err(e), self),
            }
        } else {
            (Err(CosemObjectError::MethodNotSupported(method_id)), self)
        }
    }
}

impl GasValve {
    /// A closed valve.
    pub fn new(logical_name: ObisCode) -> (r: GasValve)
        ensures
            r@ == (GasValveView { logical_name, state: GasValveState::Closed }),
    {
        GasValve { logical_name, state: GasValveState::Closed }
    }

    pub fn state(&self) -> (r: &GasValveState)
        ensures
            *r == self@.state,
    {
        &self.state
    }

    pub fn set_state(&mut self, state: GasValveState)
        ensures
            final(self)@ == (GasValveView { state, ..old(self)@ }),
    {
        self.state = state;
    }

    pub fn is_open(&self) -> (r: bool)
        ensures
            r == (self@.state == GasValveState::Open),
    {
        self.state == GasValveState::Open
    }

    pub fn class_id(&self) -> (r: u16)
        ensures
            r == 81,
    {
        81
    }

    pub fn logical_name(&self) -> (r: ObisCode)
        ensures
            r == self@.logical_name,
    {
        self.logical_name
    }

    pub fn attribute_count(&self) -> (r: u8)
        ensures
            r == 2,
    {
        2
    }

    pub fn method_count(&self) -> (r: u8)
        ensures
            r == 1,
    {
        1
    }

    /// The value of attribute `attr`, for the A-XDR encoder.
    pub fn attribute_data(&self, attr: u8) -> (r: Option<DlmsData>)
        ensures
            opt_view(r) == self@.attribute(attr),
    {
        match attr {
            1 => Some(logical_name_data(&self.logical_name)),
            2 => Some(DlmsData::Enum(state_code(self.state))),
            _ => None,
        }
    }

    fn set_state_from(&mut self, decoded: Option<DlmsData>) -> (r: Result<(), CosemObjectError>)
        ensures
            (r, final(self)@) == old(self)@.state_from(opt_view(decoded)),
    {
        match decoded {
            Some(d) => match d.as_u8() {
                Some(code) => {
                    self.state = state_from_code(code);
                    Ok(())
                },
                None => Err(CosemObjectError::InvalidData),
            },
            None => Err(CosemObjectError::InvalidData),
        }
    }

    /// Writes attribute `attr` from the value the A-XDR decoder produced
    /// (`None` where decoding failed).
    pub fn apply_attribute(&mut self, attr: u8, decoded: Option<DlmsData>) -> (r: Result<(), CosemObjectError>)
        ensures
            (r, final(self)@) == old(self)@.write(attr, opt_view(decoded)),
    {
        match attr {
            2 => self.set_state_from(decoded),
            _ => Err(CosemObjectError::AttributeNotSupported(attr)),
        }
    }

    /// Invokes method `method_id` with the argument the A-XDR decoder
    /// produced (`None` where decoding failed).
    pub fn execute_action(&mut self, method_id: u8, decoded: Option<DlmsData>) -> (r: Result<Vec<u8>, CosemObjectError>)
        ensures
            (reply_view(r), final(self)@) == old(self)@.invoke(method_id, opt_view(decoded)),
    {
        if method_id == 1 {
            match self.set_state_from(decoded) {
                Ok(()) => {
                    let reply: Vec<u8> = Vec::new();
                    assert(reply@ =~= Seq::<u8>::empty());
                    Ok(reply)
                },
                Err(e) => Err(e),
            }
        } else {
            Err(CosemObjectError::MethodNotSupported(method_id))
        }
    }
}

/// A state survives its code, and codes 0 to 2 survive their state.
pub proof fn lemma_state_round_trip(s: GasValveState, v: u8)
    ensures
        valve_state_of(valve_state_code(s)) == s,
        v <= 2 ==> valve_state_code(valve_state_of(v)) == v,
{
}

/// Opening the valve through method 1 with code 1 leaves it open, and a
/// state code written to attribute 2 is read back.
pub proof fn lemma_open_then_is_open(v: GasValveView, code: u8)
    requires
        code <= 2,
    ensures
        v.invoke(1, Some(DataView::Unsigned(1))).1.state == GasValveState::Open,
        v.write(2, Some(DataView::Enum(code))).1.attribute(2) == Some(DataView::Enum(code)),
{
}

} // verus!
