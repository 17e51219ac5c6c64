//! IC70 Disconnect control: the supply switch and its commands.

use vstd::prelude::*;
use crate::cosem::{logical_name_data, logical_name_value, opt_view, reply_view, CosemObjectError, DataView, DlmsData, ObisCode};

verus! {

/// The state of the disconnector.
#[derive(Debug, Clone, Copy, PartialEq, Eq, Structural)]
pub enum DisconnectState {
    Disconnected,
    Connected,
    ReadyForDisconnect,
    ReadyForReconnect,
    Armed,
}

/// The code of a state (0 to 4).
pub open spec fn disconnect_code(s: DisconnectState) -> u8 {
    match s {
        DisconnectState::Disconnected => 0,
        DisconnectState::Connected => 1,
        DisconnectState::ReadyForDisconnect => 2,
        DisconnectState::ReadyForReconnect => 3,
        DisconnectState::Armed => 4,
    }
}

/// The state for a code, where it is one of the five.
pub open spec fn disconnect_state_of(v: u8) -> Option<DisconnectState> {
    match v {
        0 => Some(DisconnectState::Disconnected),
        1 => Some(DisconnectState::Connected),
        2 => Some(DisconnectState::ReadyForDisconnect),
        3 => Some(DisconnectState::ReadyForReconnect),
        4 => Some(DisconnectState::Armed),
        _ => None,
    }
}

impl DisconnectState {
    /// The code of this state.
    pub fn to_u8(self) -> (r: u8)
        ensures
            r == disconnect_code(self),
    {
        match self {
            DisconnectState::Disconnected => 0,
            DisconnectState::Connected => 1,
            DisconnectState::ReadyForDisconnect => 2,
            DisconnectState::ReadyForReconnect => 3,
            DisconnectState::Armed => 4,
        }
    }
}

fn state_from_code(v: u8) -> (r: Option<DisconnectState>)
    ensures
        r == disconnect_state_of(v),
{
    match v {
        0 => Some(DisconnectState::Disconnected),
        1 => Some(DisconnectState::Connected),
        2 => Some(DisconnectState::ReadyForDisconnect),
        3 => Some(DisconnectState::ReadyForReconnect),
        4 => Some(DisconnectState::Armed),
        _ => None,
    }
}

/// Disconnect control: the control state and the output state.
pub struct DisconnectControl {
    logical_name: ObisCode,
    control_state: DisconnectState,
    output_state: DisconnectState,
}

/// The attributes of a [`DisconnectControl`].
pub struct DisconnectControlView {
    pub logical_name: ObisCode,
    pub control_state: DisconnectState,
    pub output_state: DisconnectState,
}

impl View for DisconnectControl {
    type V = DisconnectControlView;

    closed spec fn view(&self) -> DisconnectControlView {
        DisconnectControlView {
            logical_name: self.logical_name,
            control_state: self.control_state,
            output_state: self.output_state,
        }
    }
}

impl DisconnectControlView {
    /// The value of an attribute, where the class exposes it; attributes 2
    /// and 3 both give the control state.
    pub open spec fn attribute(self, attr: u8) -> Option<DataView> {
        match attr {
            1 => Some(logical_name_value(self.logical_name)),
            2 => Some(DataView::Enum(disconnect_code(self.control_state))),
            3 => Some(DataView::Enum(disconnect_code(self.control_state))),
            4 => Some(DataView::Enum(disconnect_code(self.output_state))),
            _ => None,
        }
    }

    /// Writing attribute `attr` with the decoded value `d` (`None` where
    /// decoding failed): attributes 2 and 3 take an enum holding a state code.
    pub open spec fn write(self, attr: u8, d: Option<DataView>) -> (Result<(), CosemObjectError>, DisconnectControlView) {
        if attr == 2 || attr == 3 {
            match d {
                Some(DataView::Enum(v)) => match disconnect_state_of(v) {
                    Some(s) => (Ok(()), DisconnectControlView { control_state: s, ..self }),
                    None => (Err(CosemObjectError::InvalidData), self),
                },
                _ => (Err(CosemObjectError::InvalidData), self),
            }
        } else {
            (Err(CosemObjectError::AttributeNotSupported(attr)), self)
        }
    }

    /// Invoking method `method_id`: disconnect (1), reconnect (2) and arm
    /// (3) reply `00 00`.
    pub open spec fn invoke(self, method_id: u8) -> (Result<Seq<u8>, CosemObjectError>, DisconnectControlView) {
        match method_id {
            1 => (Ok(seq![0u8, 0u8]), DisconnectControlView {
                control_state: DisconnectState::Disconnected,
                output_state: DisconnectState::Disconnected,
                ..self
            }),
            2 => (Ok(seq![0u8, 0u8]), DisconnectControlView {
                control_state: DisconnectState::Connected,
                output_state: DisconnectState::Connected,
                ..self
            }),
            3 => (Ok(seq![0u8, 0u8]), DisconnectControlView { control_state: DisconnectState::Armed, ..self }),
            _ => (Err(CosemObjectError::MethodNotSupported(method_id)), self),
        }
    }
}

impl DisconnectControl {
    /// A connected disconnector.
    pub fn new(logical_name: ObisCode) -> (r: DisconnectControl)
        ensures
            r@ == (DisconnectControlView {
                logical_name,
                control_state: DisconnectState::Connected,
                output_state: DisconnectState::Connected,
            }),
    {
        DisconnectControl {
            logical_name,
            control_state: DisconnectState::Connected,
            output_state: DisconnectState::Connected,
        }
    }

    pub fn control_state(&self) -> (r: DisconnectState)
        ensures
            r == self@.control_state,
    {
        self.control_state
    }

    pub fn set_control_state(&mut self, state: DisconnectState)
        ensures
            final(self)@ == (DisconnectControlView { control_state: state, ..old(self)@ }),
    {
        self.control_state = state;
    }

    pub fn output_state(&self) -> (r: DisconnectState)
        ensures
            r == self@.output_state,
    {
        self.output_state
    }

    pub fn class_id(&self) -> (r: u16)
        ensures
            r == 70,
    {
        70
    }

    pub fn logical_name(&self) -> (r: ObisCode)
        ensures
            r == self@.logical_name,
    {
        self.logical_name
    }

    pub fn attribute_count(&self) -> (r: u8)
        ensures
            r == 4,
    {
        4
    }

    pub fn method_count(&self) -> (r: u8)
        ensures
            r == 3,
    {
        3
    }

    /// The value of attribute `attr`, for the A-XDR encoder.
    pub fn attribute_data(&self, attr: u8) -> (r: Option<DlmsData>)
        ensures
            opt_view(r) == self@.attribute(attr),
    {
        match attr {
            1 => Some(logical_name_data(&self.logical_name)),
            2 => Some(DlmsData::Enum(self.control_state.to_u8())),
            3 => Some(DlmsData::Enum(self.control_state.to_u8())),
            4 => Some(DlmsData::Enum(self.output_state.to_u8())),
            _ => None,
        }
    }

    /// Writes attribute `attr` from the value the A-XDR decoder produced
    /// (`None` where decoding failed).
    pub fn apply_attribute(&mut self, attr: u8, decoded: Option<DlmsData>) -> (r: Result<(), CosemObjectError>)
        ensures
            (r, final(self)@) == old(self)@.write(attr, opt_view(decoded)),
    {
        if attr == 2 || attr == 3 {
            match decoded {
                Some(DlmsData::Enum(v)) => match state_from_code(v) {
                    Some(s) => {
                        self.control_state = s;
                        Ok(())
                    },
                    None => Err(CosemObjectError::InvalidData),
                },
                _ => Err(CosemObjectError::InvalidData),
            }
        } else {
            Err(CosemObjectError::AttributeNotSupported(attr))
        }
    }

    /// Invokes method `method_id`; the argument bytes are not read.
    pub fn execute_action(&mut self, method_id: u8, data: &[u8]) -> (r: Result<Vec<u8>, CosemObjectError>)
        ensures
            (reply_view(r), final(self)@) == old(self)@.invoke(method_id),
    {
        match method_id {
            1 => {
                self.control_state = DisconnectState::Disconnected;
                self.output_state = DisconnectState::Disconnected;
            },
            2 => {
                self.control_state = DisconnectState::Connected;
                self.output_state = DisconnectState::Connected;
            },
            3 => {
                self.control_state = DisconnectState::Armed;
            },
            _ => {
                return Err(CosemObjectError::MethodNotSupported(method_id));
            },
        }
        let reply = vec![0x00u8, 0x00u8];
        assert(reply@ =~= seq![0u8, 0u8]);
        Ok(reply)
    }
}

/// A state survives its code, and exactly the codes 0 to 4 name a state.
pub proof fn lemma_state_round_trip(s: DisconnectState, v: u8)
    ensures
        disconnect_state_of(disconnect_code(s)) == Some(s),
        disconnect_state_of(v) is Some <==> v <= 4,
        v <= 4 ==> disconnect_code(disconnect_state_of(v)->0) == v,
{
}

/// Reconnecting after a disconnect gives back a connected switch, whatever
/// the state before; disconnecting gives a disconnected one.
pub proof fn lemma_disconnect_reconnect(v: DisconnectControlView)
    ensures
        v.invoke(1).1.invoke(2).1 == (DisconnectControlView {
            control_state: DisconnectState::Connected,
            output_state: DisconnectState::Connected,
            ..v
        }),
        v.invoke(1).1.control_state == DisconnectState::Disconnected,
        v.invoke(1).1.output_state == DisconnectState::Disconnected,
        v.invoke(3).1.output_state == v.output_state,
{
}

/// A state code written to attribute 2 or 3 is read back from both.
pub proof fn lemma_read_back(v: DisconnectControlView, attr: u8, code: u8)
    requires
        attr == 2 || attr == 3,
        code <= 4,
    ensures
        v.write(attr, Some(DataView::Enum(code))).0 is Ok,
        v.write(attr, Some(DataView::Enum(code))).1.attribute(2) == Some(DataView::Enum(code)),
        v.write(attr, Some(DataView::Enum(code))).1.attribute(3) == Some(DataView::Enum(code)),
{
}

/// Arming always succeeds, from every state: it replies `00 00`, sets the
/// control state to armed, and keeps the output state and the logical name.
/// Disconnecting and reconnecting likewise succeed from every state and set
/// both states to disconnected, respectively connected.
pub proof fn lemma_commands_from_any_state(v: DisconnectControlView)
    ensures
        v.invoke(3).0 == Ok::<Seq<u8>, CosemObjectError>(seq![0u8, 0u8]),
        v.invoke(3).1.control_state == DisconnectState::Armed,
        v.invoke(3).1.output_state == v.output_state,
        v.invoke(3).1.logical_name == v.logical_name,
        v.invoke(1).0 == Ok::<Seq<u8>, CosemObjectError>(seq![0u8, 0u8]),
        v.invoke(1).1.control_state == DisconnectState::Disconnected,
        v.invoke(1).1.output_state == DisconnectState::Disconnected,
        v.invoke(1).1.logical_name == v.logical_name,
        v.invoke(2).0 == Ok::<Seq<u8>, CosemObjectError>(seq![0u8, 0u8]),
        v.invoke(2).1.control_state == DisconnectState::Connected,
        v.invoke(2).1.output_state == DisconnectState::Connected,
        v.invoke(2).1.logical_name == v.logical_name,
        v.invoke(1).1.invoke(3).1.control_state == DisconnectState::Armed,
        v.invoke(1).1.invoke(3).1.output_state == DisconnectState::Disconnected,
{
}

} // verus!
