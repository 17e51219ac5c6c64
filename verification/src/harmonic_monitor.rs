//! IC112 Harmonic monitor: voltage and current harmonics of orders 1 to 63.

use vstd::prelude::*;
use crate::cosem::{
    copy_bytes, lemma_items_view_eq, logical_name_data, logical_name_value, opt_view, CosemObjectError, DataView, DlmsData,
    ObisCode,
};

verus! {

/// The number of harmonic orders kept (1 to 63).
pub const HARMONIC_ORDERS: usize = 63;

/// What the monitor measures.
#[derive(Debug, Clone, Copy, PartialEq, Eq, Structural)]
pub enum MonitoringMode {
    /// Voltage harmonics only.
    VoltageOnly,
    /// Current harmonics only.
    CurrentOnly,
    /// Both voltage and current.
    Both,
}

/// The mode for a stored code: 0 and 1 name their modes, anything else is both.
pub open spec fn mode_of(value: u8) -> MonitoringMode {
    match value {
        0 => MonitoringMode::VoltageOnly,
        1 => MonitoringMode::CurrentOnly,
        _ => MonitoringMode::Both,
    }
}

/// The code of a mode.
pub open spec fn mode_code(mode: MonitoringMode) -> u8 {
    match mode {
        MonitoringMode::VoltageOnly => 0,
        MonitoringMode::CurrentOnly => 1,
        MonitoringMode::Both => 2,
    }
}

impl MonitoringMode {
    pub fn from_u8(value: u8) -> (r: MonitoringMode)
        ensures
            r == mode_of(value),
    {
        match value {
            0 => MonitoringMode::VoltageOnly,
            1 => MonitoringMode::CurrentOnly,
            _ => MonitoringMode::Both,
        }
    }

    pub fn to_u8(self) -> (r: u8)
        ensures
            r == mode_code(self),
    {
        match self {
            MonitoringMode::VoltageOnly => 0,
            MonitoringMode::CurrentOnly => 1,
            MonitoringMode::Both => 2,
        }
    }
}

/// A mode survives its code, and codes 0 to 2 survive their mode.
pub proof fn lemma_mode_round_trip(mode: MonitoringMode, value: u8)
    ensures
        mode_of(mode_code(mode)) == mode,
        value <= 2 ==> mode_code(mode_of(value)) == value,
{
}

/// Harmonic monitor: 63 voltage and 63 current harmonic levels, total
/// harmonic distortions, mode and sample rate.
#[derive(Debug)]
pub struct HarmonicMonitor {
    logical_name: ObisCode,
    voltage_harmonics: Vec<u8>,
    current_harmonics: Vec<u8>,
    thd_voltage: u8,
    thd_current: u8,
    monitoring_mode: u8,
    sample_rate: u16,
}

/// The attributes of a [`HarmonicMonitor`]; harmonic order `n` is at
/// position `n - 1`.
pub struct HarmonicMonitorView {
    pub logical_name: ObisCode,
    pub voltage_harmonics: Seq<u8>,
    pub current_harmonics: Seq<u8>,
    pub thd_voltage: u8,
    pub thd_current: u8,
    pub monitoring_mode: u8,
    pub sample_rate: u16,
}

impl View for HarmonicMonitor {
    type V = HarmonicMonitorView;

    closed spec fn view(&self) -> HarmonicMonitorView {
        HarmonicMonitorView {
            logical_name: self.logical_name,
            voltage_harmonics: self.voltage_harmonics@,
            current_harmonics: self.current_harmonics@,
            thd_voltage: self.thd_voltage,
            thd_current: self.thd_current,
            monitoring_mode: self.monitoring_mode,
            sample_rate: self.sample_rate,
        }
    }
}

/// A harmonic order that the monitor keeps.
pub open spec fn valid_order(order: usize) -> bool {
    1 <= order <= 63
}

/// Harmonic levels as an array of unsigned values.
pub open spec fn levels_value(s: Seq<u8>) -> DataView {
    DataView::Array(s.map_values(|h: u8| DataView::Unsigned(h)))
}

/// The sum of the squares of the levels.
pub open spec fn sum_squares(s: Seq<u8>) -> int
    decreases s.len(),
{
    if s.len() == 0 {
        0
    } else {
        sum_squares(s.drop_last()) + s.last() * s.last()
    }
}

impl HarmonicMonitorView {
    /// Both harmonic tables hold exactly 63 levels.
    pub open spec fn wf(self) -> bool {
        self.voltage_harmonics.len() == 63 && self.current_harmonics.len() == 63
    }

    /// The value of an attribute, where the class exposes it.
    pub open spec fn attribute(self, attr: u8) -> Option<DataView> {
        match attr {
            1 => Some(logical_name_value(self.logical_name)),
            2 => Some(levels_value(self.voltage_harmonics)),
            3 => Some(levels_value(self.current_harmonics)),
            4 => Some(DataView::Unsigned(self.thd_voltage)),
            5 => Some(DataView::Unsigned(self.thd_current)),
            6 => Some(DataView::Enum(self.monitoring_mode)),
            7 => Some(DataView::LongUnsigned(self.sample_rate)),
            _ => None,
        }
    }

    /// Writing attribute `attr` with the decoded value `d` (`None` where
    /// decoding failed): the outcome and the new attributes.
    pub open spec fn write(self, attr: u8, d: Option<DataView>) -> (Result<(), CosemObjectError>, HarmonicMonitorView) {
        match attr {
            4 => match d {
                Some(DataView::Unsigned(v)) => (Ok(()), HarmonicMonitorView { thd_voltage: v, ..self }),
                _ => (Err(CosemObjectError::InvalidData), self),
            },
            5 => match d {
                Some(DataView::Unsigned(v)) => (Ok(()), HarmonicMonitorView { thd_current: v, ..self }),
                _ => (Err(CosemObjectError::InvalidData), self),
            },
            6 => match d {
                Some(DataView::Enum(v)) => (Ok(()), HarmonicMonitorView { monitoring_mode: v, ..self }),
                _ => (Err(CosemObjectError::InvalidData), self),
            },
            7 => match d {
                Some(DataView::LongUnsigned(v)) => (Ok(()), HarmonicMonitorView { sample_rate: v, ..self }),
                _ => (Err(CosemObjectError::InvalidData), self),
            },
            _ => (Err(CosemObjectError::AttributeNotSupported(attr)), self),
        }
    }

    /// The monitor after a reset: all levels and both distortions zero.
    pub open spec fn reset(self) -> HarmonicMonitorView {
        HarmonicMonitorView {
            voltage_harmonics: Seq::new(63, |i: int| 0u8),
            current_harmonics: Seq::new(63, |i: int| 0u8),
            thd_voltage: 0,
            thd_current: 0,
            ..self
        }
    }
}

/// The level of harmonic `order` in a table, where the order is kept.
pub open spec fn level_at(s: Seq<u8>, order: usize) -> Option<u8> {
    if valid_order(order) && order - 1 < s.len() {
        Some(s[order - 1])
    } else {
        None
    }
}

fn zero_levels() -> (r: Vec<u8>)
    ensures
        r@ == Seq::new(63, |i: int| 0u8),
{
    let mut r: Vec<u8> = Vec::new();
    let mut i: usize = 0;
    while i < HARMONIC_ORDERS
        invariant
            i <= 63,
            r@ == Seq::new(i as nat, |k: int| 0u8),
        decreases 63 - i,
    {
        r.push(0);
        i = i + 1;
        assert(r@ =~= Seq::new(i as nat, |k: int| 0u8));
    }
    r
}

fn levels_data(s: &Vec<u8>) -> (r: DlmsData)
    ensures
        r@ == levels_value(s@),
{
    let mut items: Vec<DlmsData> = Vec::new();
    let mut i: usize = 0;
    while i < s.len()
        invariant
            i <= s@.len(),
            items@.len() == i,
            forall|j: int| 0 <= j < i ==> (#[trigger] items@[j])@ == DataView::Unsigned(s@[j]),
        decreases s@.len() - i,
    {
        items.push(DlmsData::Unsigned(s[i]));
        i = i + 1;
    }
    proof {
        lemma_items_view_eq(items@, s@.map_values(|h: u8| DataView::Unsigned(h)));
    }
    DlmsData::Array(items)
}

/// The sum of the squares of every level after the first (the fundamental).
fn sum_squares_above_fundamental(s: &Vec<u8>) -> (r: u32)
    requires
        s@.len() == 63,
    ensures
        r == sum_squares(s@.subrange(1, 63)),
{
    let mut acc: u32 = 0;
    let mut i: usize = 1;
    while i < s.len()
        invariant
            1 <= i <= 63,
            s@.len() == 63,
            acc == sum_squares(s@.subrange(1, i as int)),
            acc <= (i - 1) * 65025,
        decreases 63 - i,
    {
        let h = s[i] as u32;
        assert(h * h <= 65025) by (nonlinear_arith)
            requires
                h <= 255,
        ;
        assert(s@.subrange(1, i + 1).drop_last() =~= s@.subrange(1, i as int));
        acc = acc + h * h;
        i = i + 1;
    }
    acc
}

impl HarmonicMonitor {
    #[verifier::type_invariant]
    spec fn tables_hold_all_orders(self) -> bool {
        self.voltage_harmonics@.len() == 63 && self.current_harmonics@.len() == 63
    }

    /// A monitor with all levels zero, measuring both quantities at a
    /// sample rate of 256.
    pub fn new(logical_name: ObisCode) -> (r: HarmonicMonitor)
        ensures
            r@ == (HarmonicMonitorView {
                logical_name,
                voltage_harmonics: Seq::new(63, |i: int| 0u8),
                current_harmonics: Seq::new(63, |i: int| 0u8),
                thd_voltage: 0,
                thd_current: 0,
                monitoring_mode: 2,
                sample_rate: 256,
            }),
            r@.wf(),
    {
        HarmonicMonitor {
            logical_name,
            voltage_harmonics: zero_levels(),
            current_harmonics: zero_levels(),
            thd_voltage: 0,
            thd_current: 0,
            monitoring_mode: MonitoringMode::Both.to_u8(),
            sample_rate: 256,
        }
    }

    /// The voltage level of harmonic `order` (1 to 63).
    pub fn voltage_harmonic(&self, order: usize) -> (r: Option<u8>)
        ensures
            r == level_at(self@.voltage_harmonics, order),
            self@.wf(),
    {
        proof {
            use_type_invariant(self);
        }
        if order >= 1 && order <= 63 {
            Some(self.voltage_harmonics[order - 1])
        } else {
            None
        }
    }

    /// Sets the voltage level of harmonic `order`; returns whether the
    /// order is one the monitor keeps.
    pub fn set_voltage_harmonic(&mut self, order: usize, value: u8) -> (r: bool)
        ensures
            r == valid_order(order),
            old(self)@.wf(),
            final(self)@ == if r {
                HarmonicMonitorView {
                    voltage_harmonics: old(self)@.voltage_harmonics.update(order - 1, value),
                    ..old(self)@
                }
            } else {
                old(self)@
            },
    {
        proof {
            use_type_invariant(&*self);
        }
        if order >= 1 && order <= 63 {
            let mut levels = copy_bytes(self.voltage_harmonics.as_slice());
            levels.set(order - 1, value);
            self.voltage_harmonics = levels;
            true
        } else {
            false
        }
    }

    /// The current level of harmonic `order` (1 to 63).
    pub fn current_harmonic(&self, order: usize) -> (r: Option<u8>)
        ensures
            r == level_at(self@.current_harmonics, order),
            self@.wf(),
    {
        proof {
            use_type_invariant(self);
        }
        if order >= 1 && order <= 63 {
            Some(self.current_harmonics[order - 1])
        } else {
            None
        }
    }

    /// Sets the current level of harmonic `order`; returns whether the
    /// order is one the monitor keeps.
    pub fn set_current_harmonic(&mut self, order: usize, value: u8) -> (r: bool)
        ensures
            r == valid_order(order),
            old(self)@.wf(),
            final(self)@ == if r {
                HarmonicMonitorView {
                    current_harmonics: old(self)@.current_harmonics.update(order - 1, value),
                    ..old(self)@
                }
            } else {
                old(self)@
            },
    {
        proof {
            use_type_invariant(&*self);
        }
        if order >= 1 && order <= 63 {
            let mut levels = copy_bytes(self.current_harmonics.as_slice());
            levels.set(order - 1, value);
            self.current_harmonics = levels;
            true
        } else {
            false
        }
    }

    pub fn thd_voltage(&self) -> (r: u8)
        ensures
            r == self@.thd_voltage,
    {
        self.thd_voltage
    }

    pub fn set_thd_voltage(&mut self, thd: u8)
        ensures
            final(self)@ == (HarmonicMonitorView { thd_voltage: thd, ..old(self)@ }),
    {
        proof {
            use_type_invariant(&*self);
        }
        self.thd_voltage = thd;
    }

    pub fn thd_current(&self) -> (r: u8)
        ensures
            r == self@.thd_current,
    {
        self.thd_current
    }

    pub fn set_thd_current(&mut self, thd: u8)
        ensures
            final(self)@ == (HarmonicMonitorView { thd_current: thd, ..old(self)@ }),
    {
        proof {
            use_type_invariant(&*self);
        }
        self.thd_current = thd;
    }

    pub fn monitoring_mode(&self) -> (r: MonitoringMode)
        ensures
            r == mode_of(self@.monitoring_mode),
    {
        MonitoringMode::from_u8(self.monitoring_mode)
    }

    pub fn set_monitoring_mode(&mut self, mode: MonitoringMode)
        ensures
            final(self)@ == (HarmonicMonitorView { monitoring_mode: mode_code(mode), ..old(self)@ }),
    {
        proof {
            use_type_invariant(&*self);
        }
        self.monitoring_mode = mode.to_u8();
    }

    pub fn sample_rate(&self) -> (r: u16)
        ensures
            r == self@.sample_rate,
    {
        self.sample_rate
    }

    pub fn set_sample_rate(&mut self, rate: u16)
        ensures
            final(self)@ == (HarmonicMonitorView { sample_rate: rate, ..old(self)@ }),
    {
        proof {
            use_type_invariant(&*self);
        }
        self.sample_rate = rate;
    }

    /// The sum of the squares of the voltage levels of orders 2 to 63, the
    /// numerator of the voltage distortion.
    pub fn voltage_sum_squares(&self) -> (r: u32)
        ensures
            self@.wf(),
            r == sum_squares(self@.voltage_harmonics.subrange(1, 63)),
    {
        proof {
            use_type_invariant(self);
        }
        sum_squares_above_fundamental(&self.voltage_harmonics)
    }

    /// The sum of the squares of the current levels of orders 2 to 63, the
    /// numerator of the current distortion.
    pub fn current_sum_squares(&self) -> (r: u32)
        ensures
            self@.wf(),
            r == sum_squares(self@.current_harmonics.subrange(1, 63)),
    {
        proof {
            use_type_invariant(self);
        }
        sum_squares_above_fundamental(&self.current_harmonics)
    }

    pub fn class_id(&self) -> (r: u16)
        ensures
            r == 112,
    {
        112
    }

    pub fn logical_name(&self) -> (r: ObisCode)
        ensures
            r == self@.logical_name,
    {
        self.logical_name
    }

    pub fn attribute_count(&self) -> (r: u8)
        ensures
            r == 7,
    {
        7
    }

    pub fn method_count(&self) -> (r: u8)
        ensures
            r == 1,
    {
        1
    }

    /// The value of attribute `attr`, for the A-XDR encoder.
    pub fn attribute_data(&self, attr: u8) -> (r: Option<DlmsData>)
        ensures
            opt_view(r) == self@.attribute(attr),
    {
        match attr {
            1 => Some(logical_name_data(&self.logical_name)),
            2 => Some(levels_data(&self.voltage_harmonics)),
            3 => Some(levels_data(&self.current_harmonics)),
            4 => Some(DlmsData::Unsigned(self.thd_voltage)),
            5 => Some(DlmsData::Unsigned(self.thd_current)),
            6 => Some(DlmsData::Enum(self.monitoring_mode)),
            7 => Some(DlmsData::LongUnsigned(self.sample_rate)),
            _ => None,
        }
    }

    /// Writes attribute `attr` from the value the A-XDR decoder produced
    /// (`None` where decoding failed).
    pub fn apply_attribute(&mut self, attr: u8, decoded: Option<DlmsData>) -> (r: Result<(), CosemObjectError>)
        ensures
            (r, final(self)@) == old(self)@.write(attr, opt_view(decoded)),
    {
        proof {
            use_type_invariant(&*self);
        }
        match attr {
            4 => match decoded {
                Some(DlmsData::Unsigned(v)) => {
                    self.thd_voltage = v;
                    Ok(())
                },
                _ => Err(CosemObjectError::InvalidData),
            },
            5 => match decoded {
                Some(DlmsData::Unsigned(v)) => {
                    self.thd_current = v;
                    Ok(())
                },
                _ => Err(CosemObjectError::InvalidData),
            },
            6 => match decoded {
                Some(DlmsData::Enum(v)) => {
                    self.monitoring_mode = v;
                    Ok(())
                },
                _ => Err(CosemObjectError::InvalidData),
            },
            7 => match decoded {
                Some(DlmsData::LongUnsigned(v)) => {
                    self.sample_rate = v;
                    Ok(())
                },
                _ => Err(CosemObjectError::InvalidData),
            },
            _ => Err(CosemObjectError::AttributeNotSupported(attr)),
        }
    }

    /// Invokes method `method_id`: reset (1) zeroes every level and both
    /// distortions and replies `00 00`.
    pub fn execute_action(&mut self, method_id: u8, data: &[u8]) -> (r: Result<Vec<u8>, CosemObjectError>)
        ensures
            method_id == 1 ==> (r matches Ok(reply) && reply@ == seq![0u8, 0u8]) && final(self)@ == old(self)@.reset(),
            method_id != 1 ==> r == Err::<Vec<u8>, CosemObjectError>(CosemObjectError::MethodNotSupported(method_id))
                && final(self)@ == old(self)@,
    {
        proof {
            use_type_invariant(&*self);
        }
        if method_id == 1 {
            self.voltage_harmonics = zero_levels();
            self.current_harmonics = zero_levels();
            self.thd_voltage = 0;
            self.thd_current = 0;
            let reply = vec![0x00u8, 0x00u8];
            assert(reply@ =~= seq![0u8, 0u8]);
            Ok(reply)
        } else {
            Err(CosemObjectError::MethodNotSupported(method_id))
        }
    }
}

/// A level set for a kept order is read back, and other orders keep
/// their levels.
pub proof fn lemma_set_then_get(s: Seq<u8>, order: usize, other: usize, value: u8)
    requires
        s.len() == 63,
        valid_order(order),
        other != order,
    ensures
        level_at(s.update(order - 1, value), order) == Some(value),
        level_at(s.update(order - 1, value), other) == level_at(s, other),
        s.update(order - 1, value).len() == 63,
{
}

/// After a reset every kept order reads zero, and the tables still hold
/// all 63 orders.
pub proof fn lemma_reset_zeroes(v: HarmonicMonitorView, order: usize)
    requires
        valid_order(order),
    ensures
        level_at(v.reset().voltage_harmonics, order) == Some(0u8),
        level_at(v.reset().current_harmonics, order) == Some(0u8),
        v.reset().wf(),
        v.reset().thd_voltage == 0 && v.reset().thd_current == 0,
{
}

/// A value accepted for a writable attribute is read back unchanged.
pub proof fn lemma_read_back(v: HarmonicMonitorView, attr: u8, d: DataView)
    requires
        v.write(attr, Some(d)).0 is Ok,
    ensures
        v.write(attr, Some(d)).1.attribute(attr) == Some(d),
{
}

} // verus!
