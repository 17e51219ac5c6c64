//! IC71 Limiter: supervises a monitored value against thresholds and drives
//! the emergency profile.

use vstd::prelude::*;
use crate::cosem::{
    i32_or, logical_name_data, logical_name_value, opt_view, CosemObjectError, DataView, DlmsData,
    ObisCode,
};

verus! {

/// What a threshold evaluation asks the caller to do.
#[derive(Clone, Copy, Debug, PartialEq, Eq, Structural)]
pub enum ThresholdAction {
    Normal,
    OverThreshold,
    UnderThreshold,
}

/// Limiter: limits supply based on a monitored value.
pub struct Limiter {
    logical_name: ObisCode,
    monitored_value: DlmsData,
    threshold_normal: DlmsData,
    threshold_over: DlmsData,
    threshold_under: DlmsData,
    min_over_duration: u32,
    min_under_duration: u32,
    emergency_profile_active: bool,
    over_threshold_start: Option<u32>,
    under_threshold_start: Option<u32>,
}

/// The state of a [`Limiter`].
pub struct LimiterView {
    pub logical_name: ObisCode,
    pub monitored_value: DataView,
    pub threshold_normal: DataView,
    pub threshold_over: DataView,
    pub threshold_under: DataView,
    pub min_over_duration: u32,
    pub min_under_duration: u32,
    pub emergency_profile_active: bool,
    /// Time stamp (seconds) at which the current over-threshold episode began.
    pub over_threshold_start: Option<u32>,
    /// Time stamp (seconds) at which the current under-threshold episode began.
    pub under_threshold_start: Option<u32>,
}

impl View for Limiter {
    type V = LimiterView;

    closed spec fn view(&self) -> LimiterView {
        LimiterView {
            logical_name: self.logical_name,
            monitored_value: self.monitored_value@,
            threshold_normal: self.threshold_normal@,
            threshold_over: self.threshold_over@,
            threshold_under: self.threshold_under@,
            min_over_duration: self.min_over_duration,
            min_under_duration: self.min_under_duration,
            emergency_profile_active: self.emergency_profile_active,
            over_threshold_start: self.over_threshold_start,
            under_threshold_start: self.under_threshold_start,
        }
    }
}

impl LimiterView {
    /// The monitored value as an integer (0 where it holds none).
    pub open spec fn value(self) -> i32 {
        i32_or(self.monitored_value, 0)
    }

    /// The upper threshold (no upper limit where it holds no integer).
    pub open spec fn over_limit(self) -> i32 {
        i32_or(self.threshold_over, i32::MAX)
    }

    /// The lower threshold (no lower limit where it holds no integer).
    pub open spec fn under_limit(self) -> i32 {
        i32_or(self.threshold_under, i32::MIN)
    }

    /// Whether the monitored value exceeds the normal threshold.
    pub open spec fn above_normal(self) -> bool {
        self.value() > i32_or(self.threshold_normal, 0)
    }

    /// Whether `now` lies before the start of an episode that an evaluation
    /// at `now` would measure: the elapsed time would be negative.
    pub open spec fn clock_went_back(self, now: u32) -> bool {
        if self.value() > self.over_limit() {
            self.over_threshold_start matches Some(s) && now < s
        } else if self.value() < self.under_limit() {
            self.under_threshold_start matches Some(s) && now < s
        } else {
            false
        }
    }

    /// One threshold evaluation at time `now`: the next state and the
    /// action.  An excursion beyond a threshold first starts a timer; once it
    /// has lasted the minimum duration the emergency profile is activated.
    /// Back inside the band, both timers are cleared and the emergency
    /// profile is deactivated.
    pub open spec fn evaluate(self, now: u32) -> (LimiterView, ThresholdAction) {
        if self.value() > self.over_limit() {
            match self.over_threshold_start {
                None => (
                    LimiterView {
                        over_threshold_start: Some(now),
                        under_threshold_start: None,
                        ..self
                    },
                    ThresholdAction::Normal,
                ),
                Some(start) => if now - start >= self.min_over_duration {
                    (LimiterView { emergency_profile_active: true, ..self }, ThresholdAction::OverThreshold)
                } else {
                    (self, ThresholdAction::Normal)
                },
            }
        } else if self.value() < self.under_limit() {
            match self.under_threshold_start {
                None => (
                    LimiterView {
                        under_threshold_start: Some(now),
                        over_threshold_start: None,
                        ..self
                    },
                    ThresholdAction::Normal,
                ),
                Some(start) => if now - start >= self.min_under_duration {
                    (LimiterView { emergency_profile_active: true, ..self }, ThresholdAction::UnderThreshold)
                } else {
                    (self, ThresholdAction::Normal)
                },
            }
        } else {
            (
                LimiterView {
                    over_threshold_start: None,
                    under_threshold_start: None,
                    emergency_profile_active: false,
                    ..self
                },
                ThresholdAction::Normal,
            )
        }
    }

    /// The value of an attribute, where the class exposes it.
    pub open spec fn attribute(self, attr: u8) -> Option<DataView> {
        match attr {
            1 => Some(logical_name_value(self.logical_name)),
            2 => Some(self.monitored_value),
            3 => Some(self.threshold_normal),
            4 => Some(self.threshold_over),
            5 => Some(self.threshold_under),
            6 => Some(DataView::DoubleLongUnsigned(self.min_over_duration)),
            7 => Some(DataView::DoubleLongUnsigned(self.min_under_duration)),
            11 => Some(DataView::Boolean(self.emergency_profile_active)),
            _ => None,
        }
    }
}

impl Limiter {
    pub fn new(logical_name: ObisCode) -> (r: Limiter)
        ensures
            r@ == (LimiterView {
                logical_name,
                monitored_value: DataView::DoubleLong(0),
                threshold_normal: DataView::DoubleLong(100),
                threshold_over: DataView::DoubleLong(120),
                threshold_under: DataView::DoubleLong(0),
                min_over_duration: 60,
                min_under_duration: 60,
                emergency_profile_active: false,
                over_threshold_start: None,
                under_threshold_start: None,
            }),
    {
        Limiter {
            logical_name,
            monitored_value: DlmsData::DoubleLong(0),
            threshold_normal: DlmsData::DoubleLong(100),
            threshold_over: DlmsData::DoubleLong(120),
            threshold_under: DlmsData::DoubleLong(0),
            min_over_duration: 60,
            min_under_duration: 60,
            emergency_profile_active: false,
            over_threshold_start: None,
            under_threshold_start: None,
        }
    }

    pub fn monitored_value(&self) -> (r: &DlmsData)
        ensures
            r@ == self@.monitored_value,
    {
        &self.monitored_value
    }

    pub fn set_monitored_value(&mut self, v: DlmsData)
        ensures
            final(self)@ == (LimiterView { monitored_value: v@, ..old(self)@ }),
    {
        self.monitored_value = v;
    }

    pub fn emergency_active(&self) -> (r: bool)
        ensures
            r == self@.emergency_profile_active,
    {
        self.emergency_profile_active
    }

    pub fn set_emergency_active(&mut self, a: bool)
        ensures
            final(self)@ == (LimiterView { emergency_profile_active: a, ..old(self)@ }),
    {
        self.emergency_profile_active = a;
    }

    /// Whether the monitored value exceeds the normal threshold (values
    /// holding no integer count as 0).
    pub fn check_threshold(&self) -> (r: bool)
        ensures
            r == self@.above_normal(),
    {
        let val = match self.monitored_value.as_i32() {
            Some(v) => v,
            None => 0,
        };
        let normal = match self.threshold_normal.as_i32() {
            Some(v) => v,
            None => 0,
        };
        val > normal
    }

    /// Activates the emergency profile; returns whether the state changed.
    pub fn activate_emergency(&mut self) -> (r: bool)
        ensures
            r == !old(self)@.emergency_profile_active,
            final(self)@ == (LimiterView { emergency_profile_active: true, ..old(self)@ }),
    {
        if !self.emergency_profile_active {
            self.emergency_profile_active = true;
            true
        } else {
            false
        }
    }

    /// Deactivates the emergency profile; returns whether the state changed.
    pub fn deactivate_emergency(&mut self) -> (r: bool)
        ensures
            r == old(self)@.emergency_profile_active,
            final(self)@ == (LimiterView { emergency_profile_active: false, ..old(self)@ }),
    {
        if self.emergency_profile_active {
            self.emergency_profile_active = false;
            true
        } else {
            false
        }
    }

    /// Evaluates the monitored value against the over and under thresholds
    /// at time `current_timestamp` (seconds), honouring the minimum
    /// durations before an excursion triggers the emergency profile.
    pub fn evaluate_thresholds(&mut self, current_timestamp: u32) -> (r: ThresholdAction)
        requires
            !old(self)@.clock_went_back(current_timestamp),
        ensures
            (final(self)@, r) == old(self)@.evaluate(current_timestamp),
    {
        let val = match self.monitored_value.as_i32() {
            Some(v) => v,
            None => 0,
        };
        let over = match self.threshold_over.as_i32() {
            Some(v) => v,
            None => i32::MAX,
        };
        let under = match self.threshold_under.as_i32() {
            Some(v) => v,
            None => i32::MIN,
        };
        if val > over {
            match self.over_threshold_start {
                None => {
                    self.over_threshold_start = Some(current_timestamp);
                    self.under_threshold_start = None;
                    ThresholdAction::Normal
                },
                Some(start) => {
                    if current_timestamp - start >= self.min_over_duration {
                        self.activate_emergency();
                        ThresholdAction::OverThreshold
                    } else {
                        ThresholdAction::Normal
                    }
                },
            }
        } else if val < under {
            match self.under_threshold_start {
                None => {
                    self.under_threshold_start = Some(current_timestamp);
                    self.over_threshold_start = None;
                    ThresholdAction::Normal
                },
                Some(start) => {
                    if current_timestamp - start >= self.min_under_duration {
                        self.activate_emergency();
                        ThresholdAction::UnderThreshold
                    } else {
                        ThresholdAction::Normal
                    }
                },
            }
        } else {
            self.over_threshold_start = None;
            self.under_threshold_start = None;
            self.deactivate_emergency();
            ThresholdAction::Normal
        }
    }

    /// Whether a disconnect should be triggered: the emergency profile is active.
    pub fn should_disconnect(&self) -> (r: bool)
        ensures
            r == self@.emergency_profile_active,
    {
        self.emergency_profile_active
    }

    /// Whether supply may be reconnected: no emergency and the value is not
    /// above the normal threshold.
    pub fn should_reconnect(&self) -> (r: bool)
        ensures
            r == (!self@.emergency_profile_active && !self@.above_normal()),
    {
        !self.emergency_profile_active && !self.check_threshold()
    }

    pub fn set_thresholds(&mut self, normal: DlmsData, over: DlmsData, under: DlmsData)
        ensures
            final(self)@ == (LimiterView {
                threshold_normal: normal@,
                threshold_over: over@,
                threshold_under: under@,
                ..old(self)@
            }),
    {
        self.threshold_normal = normal;
        self.threshold_over = over;
        self.threshold_under = under;
    }

    /// Sets the minimum over and under durations (seconds).
    pub fn set_durations(&mut self, min_over: u32, min_under: u32)
        ensures
            final(self)@ == (LimiterView {
                min_over_duration: min_over,
                min_under_duration: min_under,
                ..old(self)@
            }),
    {
        self.min_over_duration = min_over;
        self.min_under_duration = min_under;
    }

    pub fn class_id(&self) -> (r: u16)
        ensures
            r == 71,
    {
        71
    }

    pub fn logical_name(&self) -> (r: ObisCode)
        ensures
            r == self@.logical_name,
    {
        self.logical_name
    }

    pub fn attribute_count(&self) -> (r: u8)
        ensures
            r == 11,
    {
        11
    }

    pub fn method_count(&self) -> (r: u8)
        ensures
            r == 0,
    {
        0
    }

    /// The value of attribute `attr`, for the A-XDR encoder.
    pub fn attribute_data(&self, attr: u8) -> (r: Option<DlmsData>)
        ensures
            opt_view(r) == self@.attribute(attr),
    {
        match attr {
            1 => Some(logical_name_data(&self.logical_name)),
            2 => Some(self.monitored_value.copy()),
            3 => Some(self.threshold_normal.copy()),
            4 => Some(self.threshold_over.copy()),
            5 => Some(self.threshold_under.copy()),
            6 => Some(DlmsData::DoubleLongUnsigned(self.min_over_duration)),
            7 => Some(DlmsData::DoubleLongUnsigned(self.min_under_duration)),
            11 => Some(DlmsData::Boolean(self.emergency_profile_active)),
            _ => None,
        }
    }

    /// Writes attribute `attr` from the value the A-XDR decoder produced
    /// (`None` where decoding failed).  Only the monitored value (2) is
    /// writable, and it takes any value.
    pub fn apply_attribute(&mut self, attr: u8, decoded: Option<DlmsData>) -> (r: Result<(), CosemObjectError>)
        ensures
            attr == 2 && decoded is Some ==> r is Ok && final(self)@ == (LimiterView {
                monitored_value: decoded->0@,
                ..old(self)@
            }),
            attr == 2 && decoded is None ==> r == Err::<(), CosemObjectError>(CosemObjectError::InvalidData)
                && final(self)@ == old(self)@,
            attr != 2 ==> r == Err::<(), CosemObjectError>(CosemObjectError::AttributeNotSupported(attr))
                && final(self)@ == old(self)@,
    {
        if attr == 2 {
            match decoded {
                Some(d) => {
                    self.monitored_value = d;
                    Ok(())
                },
                None => Err(CosemObjectError::InvalidData),
            }
        } else {
            Err(CosemObjectError::AttributeNotSupported(attr))
        }
    }
}

/// An evaluation that reports an excursion leaves the emergency profile
/// active; one that finds the value inside the band leaves it inactive and
/// both timers cleared.
pub proof fn lemma_evaluate_emergency(v: LimiterView, now: u32)
    ensures
        v.evaluate(now).1 != ThresholdAction::Normal ==> v.evaluate(now).0.emergency_profile_active,
        (v.under_limit() <= v.value() <= v.over_limit()) ==> {
            &&& !v.evaluate(now).0.emergency_profile_active
            &&& v.evaluate(now).0.over_threshold_start is None
            &&& v.evaluate(now).0.under_threshold_start is None
            &&& v.evaluate(now).1 == ThresholdAction::Normal
        },
{
}

/// An excursion is reported only after it has been observed twice: the
/// first evaluation beyond a threshold starts the timer and reports normal
/// operation, and a later evaluation at least the minimum duration after it
/// reports the excursion (while the value stays beyond the same threshold).
pub proof fn lemma_excursion_needs_duration(v: LimiterView, t0: u32, t1: u32)
    requires
        v.over_threshold_start is None,
        v.value() > v.over_limit(),
        t0 <= t1,
        t1 - t0 >= v.min_over_duration,
    ensures
        v.evaluate(t0).1 == ThresholdAction::Normal,
        v.evaluate(t0).0.over_threshold_start == Some(t0),
        !v.evaluate(t0).0.clock_went_back(t1),
        v.evaluate(t0).0.evaluate(t1).1 == ThresholdAction::OverThreshold,
        v.evaluate(t0).0.evaluate(t1).0.emergency_profile_active,
{
}

/// Activating and then deactivating the emergency profile restores every
/// other part of the state and leaves the profile inactive.
pub proof fn lemma_activate_deactivate(v: LimiterView)
    ensures
        (LimiterView { emergency_profile_active: false, ..(LimiterView { emergency_profile_active: true, ..v }) })
            == (LimiterView { emergency_profile_active: false, ..v }),
{
}

/// Writing the monitored value and reading attribute 2 gives back the value written.
pub proof fn lemma_monitored_value_read_back(v: LimiterView, d: DataView)
    ensures
        (LimiterView { monitored_value: d, ..v }).attribute(2) == Some(d),
{
}

/// The state after evaluations at the times `ts`, in order, starting from `v`.
pub open spec fn run_state(v: LimiterView, ts: Seq<u32>) -> LimiterView
    decreases ts.len(),
{
    if ts.len() == 0 {
        v
    } else {
        run_state(v, ts.drop_last()).evaluate(ts.last()).0
    }
}

/// The action reported by evaluation number `k` of the run at times `ts`.
pub open spec fn run_action(v: LimiterView, ts: Seq<u32>, k: int) -> ThresholdAction {
    run_state(v, ts.take(k)).evaluate(ts[k]).1
}

/// The evaluation times never go back.
pub open spec fn nondecreasing(ts: Seq<u32>) -> bool {
    forall|i: int, j: int| 0 <= i <= j < ts.len() ==> ts[i] <= ts[j]
}

/// A run of evaluations keeps the value, the thresholds and the minimum
/// durations, and, while the value stays beyond one threshold, keeps the
/// time at which that excursion began.
proof fn lemma_run_keeps_start(v: LimiterView, ts: Seq<u32>, k: int, over: bool)
    requires
        1 <= k <= ts.len(),
        over ==> v.over_threshold_start is None && v.value() > v.over_limit(),
        !over ==> v.under_threshold_start is None && v.value() < v.under_limit() && !(v.value() > v.over_limit()),
    ensures
        run_state(v, ts.take(k)).monitored_value == v.monitored_value,
        run_state(v, ts.take(k)).threshold_over == v.threshold_over,
        run_state(v, ts.take(k)).threshold_under == v.threshold_under,
        run_state(v, ts.take(k)).min_over_duration == v.min_over_duration,
        run_state(v, ts.take(k)).min_under_duration == v.min_under_duration,
        over ==> run_state(v, ts.take(k)).over_threshold_start == Some(ts[0]),
        !over ==> run_state(v, ts.take(k)).under_threshold_start == Some(ts[0]),
    decreases k,
{
    assert(ts.take(k).drop_last() =~= ts.take(k - 1));
    assert(ts.take(k).last() == ts[k - 1]);
    if k == 1 {
        assert(ts.take(0) =~= Seq::<u32>::empty());
    } else {
        lemma_run_keeps_start(v, ts, k - 1, over);
    }
}

/// One evaluation of a run during which the value stays beyond one
/// threshold: its time does not go back, what it reports, and that a
/// report leaves the emergency profile active.
proof fn lemma_run_step(v: LimiterView, ts: Seq<u32>, k: int, over: bool)
    requires
        0 <= k < ts.len(),
        nondecreasing(ts),
        over ==> v.over_threshold_start is None && v.value() > v.over_limit(),
        !over ==> v.under_threshold_start is None && v.value() < v.under_limit() && !(v.value() > v.over_limit()),
    ensures
        !run_state(v, ts.take(k)).clock_went_back(ts[k]),
        over ==> run_action(v, ts, k) == if k > 0 && ts[k] - ts[0] >= v.min_over_duration {
            ThresholdAction::OverThreshold
        } else {
            ThresholdAction::Normal
        },
        !over ==> run_action(v, ts, k) == if k > 0 && ts[k] - ts[0] >= v.min_under_duration {
            ThresholdAction::UnderThreshold
        } else {
            ThresholdAction::Normal
        },
        run_action(v, ts, k) != ThresholdAction::Normal ==> run_state(v, ts.take(k + 1)).emergency_profile_active,
{
    assert(ts.take(k + 1).drop_last() =~= ts.take(k));
    assert(ts.take(k + 1).last() == ts[k]);
    if k == 0 {
        assert(ts.take(0) =~= Seq::<u32>::empty());
    } else {
        lemma_run_keeps_start(v, ts, k, over);
        assert(ts[0] <= ts[k]);
    }
}

/// An excursion above the upper threshold is reported only once it has
/// lasted the minimum duration: in a run of evaluations at non-decreasing
/// times that starts outside any excursion and during which the value
/// stays above the upper threshold, the first evaluation reports normal
/// operation and starts the timer, and evaluation `k` reports the
/// excursion exactly when it comes at least the minimum duration after the
/// first; once reported, the emergency profile is active.
pub proof fn lemma_over_threshold_run(v: LimiterView, ts: Seq<u32>)
    requires
        v.over_threshold_start is None,
        v.value() > v.over_limit(),
        nondecreasing(ts),
    ensures
        forall|k: int| 0 <= k < ts.len() ==> !#[trigger] run_state(v, ts.take(k)).clock_went_back(ts[k]),
        forall|k: int|
            0 <= k < ts.len() ==> #[trigger] run_action(v, ts, k) == if k > 0 && ts[k] - ts[0] >= v.min_over_duration {
                ThresholdAction::OverThreshold
            } else {
                ThresholdAction::Normal
            },
        forall|k: int|
            0 <= k < ts.len() && #[trigger] run_action(v, ts, k) == ThresholdAction::OverThreshold ==> run_state(
                v,
                ts.take(k + 1),
            ).emergency_profile_active,
{
    assert forall|k: int| 0 <= k < ts.len() implies !#[trigger] run_state(v, ts.take(k)).clock_went_back(ts[k]) by {
        lemma_run_step(v, ts, k, true);
    }
    assert forall|k: int| 0 <= k < ts.len() implies #[trigger] run_action(v, ts, k) == if k > 0 && ts[k] - ts[0]
        >= v.min_over_duration {
        ThresholdAction::OverThreshold
    } else {
        ThresholdAction::Normal
    } by {
        lemma_run_step(v, ts, k, true);
    }
    assert forall|k: int| 0 <= k < ts.len() && #[trigger] run_action(v, ts, k) == ThresholdAction::OverThreshold implies run_state(
        v,
        ts.take(k + 1),
    ).emergency_profile_active by {
        lemma_run_step(v, ts, k, true);
    }
}

/// The same for an excursion below the lower threshold (with the value not
/// above the upper one), and its minimum duration.
pub proof fn lemma_under_threshold_run(v: LimiterView, ts: Seq<u32>)
    requires
        v.under_threshold_start is None,
        v.value() < v.under_limit(),
        !(v.value() > v.over_limit()),
        nondecreasing(ts),
    ensures
        forall|k: int| 0 <= k < ts.len() ==> !#[trigger] run_state(v, ts.take(k)).clock_went_back(ts[k]),
        forall|k: int|
            0 <= k < ts.len() ==> #[trigger] run_action(v, ts, k) == if k > 0 && ts[k] - ts[0] >= v.min_under_duration {
                ThresholdAction::UnderThreshold
            } else {
                ThresholdAction::Normal
            },
        forall|k: int|
            0 <= k < ts.len() && #[trigger] run_action(v, ts, k) == ThresholdAction::UnderThreshold ==> run_state(
                v,
                ts.take(k + 1),
            ).emergency_profile_active,
{
    assert forall|k: int| 0 <= k < ts.len() implies !#[trigger] run_state(v, ts.take(k)).clock_went_back(ts[k]) by {
        lemma_run_step(v, ts, k, false);
    }
    assert forall|k: int| 0 <= k < ts.len() implies #[trigger] run_action(v, ts, k) == if k > 0 && ts[k] - ts[0]
        >= v.min_under_duration {
        ThresholdAction::UnderThreshold
    } else {
        ThresholdAction::Normal
    } by {
        lemma_run_step(v, ts, k, false);
    }
    assert forall|k: int| 0 <= k < ts.len() && #[trigger] run_action(v, ts, k) == ThresholdAction::UnderThreshold implies run_state(
        v,
        ts.take(k + 1),
    ).emergency_profile_active by {
        lemma_run_step(v, ts, k, false);
    }
}

/// A reported excursion always has a started episode that has lasted the
/// minimum duration, with the value beyond the threshold concerned.
pub proof fn lemma_excursion_reported(v: LimiterView, now: u32)
    ensures
        v.evaluate(now).1 == ThresholdAction::OverThreshold ==> v.value() > v.over_limit()
            && (v.over_threshold_start matches Some(s) && now - s >= v.min_over_duration),
        v.evaluate(now).1 == ThresholdAction::UnderThreshold ==> v.value() < v.under_limit()
            && (v.under_threshold_start matches Some(s) && now - s >= v.min_under_duration),
{
}

} // verus!
