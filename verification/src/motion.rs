//! Motion profiles: trajectory points, the status snapshot, and the two
//! buffers a profile is streamed through.
//!
//! Points are pushed into the top buffer, which lives beside the application
//! and takes whatever it is given. `process` moves them, in order, into the
//! bottom buffer, which stands for the controller's own memory and holds a
//! fixed number of points. The controller's executer takes its next point from
//! the bottom buffer; finding it empty is an underrun, which is remembered
//! until the application clears it.

use vstd::prelude::*;
use crate::demand::Demand;
use crate::error::ErrorCode;

verus! {

/// How long a trajectory point is applied, beyond the base duration.
#[derive(Debug, Copy, Clone, PartialEq, Eq, Structural)]
pub enum TrajectoryDuration {
    T0ms,
    T5ms,
    T10ms,
    T20ms,
    T30ms,
    T40ms,
    T50ms,
    T100ms,
}

impl TrajectoryDuration {
    pub open spec fn millis_value(self) -> i32 {
        match self {
            TrajectoryDuration::T0ms => 0,
            TrajectoryDuration::T5ms => 5,
            TrajectoryDuration::T10ms => 10,
            TrajectoryDuration::T20ms => 20,
            TrajectoryDuration::T30ms => 30,
            TrajectoryDuration::T40ms => 40,
            TrajectoryDuration::T50ms => 50,
            TrajectoryDuration::T100ms => 100,
        }
    }

    /// The duration in milliseconds.
    pub fn millis(self) -> (r: i32)
        ensures
            r == self.millis_value(),
    {
        match self {
            TrajectoryDuration::T0ms => 0,
            TrajectoryDuration::T5ms => 5,
            TrajectoryDuration::T10ms => 10,
            TrajectoryDuration::T20ms => 20,
            TrajectoryDuration::T30ms => 30,
            TrajectoryDuration::T40ms => 40,
            TrajectoryDuration::T50ms => 50,
            TrajectoryDuration::T100ms => 100,
        }
    }
}

/// Whether the executer drives the output.
#[derive(Debug, Copy, Clone, PartialEq, Eq, Structural)]
pub enum SetValueMotionProfile {
    Invalid,
    Disable,
    Enable,
    Hold,
}

impl SetValueMotionProfile {
    pub open spec fn from_raw_value(raw: i32) -> SetValueMotionProfile {
        if raw == 0 {
            SetValueMotionProfile::Disable
        } else if raw == 1 {
            SetValueMotionProfile::Enable
        } else if raw == 2 {
            SetValueMotionProfile::Hold
        } else {
            SetValueMotionProfile::Invalid
        }
    }

    pub open spec fn code_value(self) -> i32 {
        match self {
            SetValueMotionProfile::Invalid => -1i32,
            SetValueMotionProfile::Disable => 0,
            SetValueMotionProfile::Enable => 1,
            SetValueMotionProfile::Hold => 2,
        }
    }

    /// The number that the controller knows the state by.
    pub fn code(self) -> (r: i32)
        ensures
            r == self.code_value(),
    {
        match self {
            SetValueMotionProfile::Invalid => -1i32,
            SetValueMotionProfile::Disable => 0,
            SetValueMotionProfile::Enable => 1,
            SetValueMotionProfile::Hold => 2,
        }
    }

    /// The state that the controller reports as `raw`: 0 is disabled, 1
    /// enabled, 2 holding; anything else is no state.
    pub fn from_raw(raw: i32) -> (r: Self)
        ensures
            r == Self::from_raw_value(raw),
    {
        if raw == 0 {
            SetValueMotionProfile::Disable
        } else if raw == 1 {
            SetValueMotionProfile::Enable
        } else if raw == 2 {
            SetValueMotionProfile::Hold
        } else {
            SetValueMotionProfile::Invalid
        }
    }
}

/// One waypoint of a motion profile.
#[derive(Debug, Copy, Clone, PartialEq, Eq, Structural)]
pub struct TrajectoryPoint {
    /// The position to servo to.
    pub position: Demand,
    /// The velocity to feed forward.
    pub velocity: Demand,
    /// The position of the auxiliary closed loop.
    pub auxiliary_pos: Demand,
    /// The gain slot of the primary closed loop.
    pub profile_slot_select_0: u32,
    /// The gain slot of the auxiliary closed loop.
    pub profile_slot_select_1: u32,
    /// This is the profile's last point: the executer holds it and does not
    /// ask for another.
    pub is_last_point: bool,
    /// The sensor position is set to zero when this point is taken up.
    pub zero_pos: bool,
    /// How long the point is applied.
    pub time_dur: TrajectoryDuration,
}

impl TrajectoryPoint {
    /// The point with every number zero and every flag off.
    pub open spec fn zero_value() -> TrajectoryPoint {
        TrajectoryPoint {
            position: Demand { bits: 0 },
            velocity: Demand { bits: 0 },
            auxiliary_pos: Demand { bits: 0 },
            profile_slot_select_0: 0,
            profile_slot_select_1: 0,
            is_last_point: false,
            zero_pos: false,
            time_dur: TrajectoryDuration::T0ms,
        }
    }
}

/// A snapshot of the profile executer and the buffers that feed it.
#[derive(Debug, Copy, Clone, PartialEq, Eq, Structural)]
pub struct MotionProfileStatus {
    /// How many more points the top buffer has room for.
    pub top_buffer_rem: i32,
    /// How many points the top buffer holds.
    pub top_buffer_cnt: i32,
    /// How many points the bottom buffer holds.
    pub btm_buffer_cnt: i32,
    /// An underrun has happened since the flag was last cleared.
    pub has_underrun: bool,
    /// The executer is starved right now.
    pub is_underrun: bool,
    /// The executer has a point.
    pub active_point_valid: bool,
    /// The executer's point is the profile's last.
    pub is_last: bool,
    /// The primary gain slot of the executer's point.
    pub profile_slot_select_0: i32,
    /// The auxiliary gain slot of the executer's point.
    pub profile_slot_select_1: i32,
    /// Whether the executer drives the output.
    pub output_enable: SetValueMotionProfile,
    /// The duration of the executer's point, in milliseconds.
    pub time_dur_ms: i32,
}

/// The status values as a controller hands them over, the output state still a
/// number.
#[derive(Debug, Copy, Clone, PartialEq, Eq, Structural)]
pub struct RawMotionProfileStatus {
    pub top_buffer_rem: i32,
    pub top_buffer_cnt: i32,
    pub btm_buffer_cnt: i32,
    pub has_underrun: bool,
    pub is_underrun: bool,
    pub active_point_valid: bool,
    pub is_last: bool,
    pub profile_slot_select_0: i32,
    pub output_enable: i32,
    pub time_dur_ms: i32,
    pub profile_slot_select_1: i32,
}

impl RawMotionProfileStatus {
    /// The snapshot that these values make.
    pub open spec fn decoded(self) -> MotionProfileStatus {
        MotionProfileStatus {
            top_buffer_rem: self.top_buffer_rem,
            top_buffer_cnt: self.top_buffer_cnt,
            btm_buffer_cnt: self.btm_buffer_cnt,
            has_underrun: self.has_underrun,
            is_underrun: self.is_underrun,
            active_point_valid: self.active_point_valid,
            is_last: self.is_last,
            profile_slot_select_0: self.profile_slot_select_0,
            profile_slot_select_1: self.profile_slot_select_1,
            output_enable: SetValueMotionProfile::from_raw_value(self.output_enable),
            time_dur_ms: self.time_dur_ms,
        }
    }
}

impl MotionProfileStatus {
    /// The snapshot before anything is known: every count zero, every flag
    /// off, and no output state.
    pub open spec fn empty_value() -> MotionProfileStatus {
        MotionProfileStatus {
            top_buffer_rem: 0,
            top_buffer_cnt: 0,
            btm_buffer_cnt: 0,
            has_underrun: false,
            is_underrun: false,
            active_point_valid: false,
            is_last: false,
            profile_slot_select_0: 0,
            profile_slot_select_1: 0,
            output_enable: SetValueMotionProfile::Invalid,
            time_dur_ms: 0,
        }
    }

    /// The values that are handed to the controller to write its report over:
    /// those of this snapshot, with the output state as the number 0. What the
    /// controller leaves unwritten is then still there after `fill`, but for
    /// the output state, which reads as disabled.
    pub open spec fn raw_before_value(self) -> RawMotionProfileStatus {
        RawMotionProfileStatus {
            top_buffer_rem: self.top_buffer_rem,
            top_buffer_cnt: self.top_buffer_cnt,
            btm_buffer_cnt: self.btm_buffer_cnt,
            has_underrun: self.has_underrun,
            is_underrun: self.is_underrun,
            active_point_valid: self.active_point_valid,
            is_last: self.is_last,
            profile_slot_select_0: self.profile_slot_select_0,
            output_enable: 0,
            time_dur_ms: self.time_dur_ms,
            profile_slot_select_1: self.profile_slot_select_1,
        }
    }

    /// The values that are handed to the controller to write its report over.
    pub fn raw_before(&self) -> (r: RawMotionProfileStatus)
        ensures
            r == self.raw_before_value(),
    {
        RawMotionProfileStatus {
            top_buffer_rem: self.top_buffer_rem,
            top_buffer_cnt: self.top_buffer_cnt,
            btm_buffer_cnt: self.btm_buffer_cnt,
            has_underrun: self.has_underrun,
            is_underrun: self.is_underrun,
            active_point_valid: self.active_point_valid,
            is_last: self.is_last,
            profile_slot_select_0: self.profile_slot_select_0,
            output_enable: 0,
            time_dur_ms: self.time_dur_ms,
            profile_slot_select_1: self.profile_slot_select_1,
        }
    }

    /// Overwrites every field with what the controller reported, and hands the
    /// request's code on.
    pub fn fill(&mut self, raw: RawMotionProfileStatus, code: ErrorCode) -> (r: ErrorCode)
        ensures
            *final(self) == raw.decoded(),
            r == code,
    {
        self.top_buffer_rem = raw.top_buffer_rem;
        self.top_buffer_cnt = raw.top_buffer_cnt;
        self.btm_buffer_cnt = raw.btm_buffer_cnt;
        self.has_underrun = raw.has_underrun;
        self.is_underrun = raw.is_underrun;
        self.active_point_valid = raw.active_point_valid;
        self.is_last = raw.is_last;
        self.profile_slot_select_0 = raw.profile_slot_select_0;
        self.profile_slot_select_1 = raw.profile_slot_select_1;
        self.output_enable = SetValueMotionProfile::from(raw.output_enable);
        self.time_dur_ms = raw.time_dur_ms;
        code
    }

    /// A new snapshot from what the controller reported: the whole snapshot if
    /// the request went through, and the code alone if it did not.
    pub fn from_report(raw: RawMotionProfileStatus, code: ErrorCode) -> (r: Result<
        MotionProfileStatus,
        ErrorCode,
    >)
        ensures
            code.is_ok_value() ==> r == Ok::<MotionProfileStatus, ErrorCode>(raw.decoded()),
            !code.is_ok_value() ==> r == Err::<MotionProfileStatus, ErrorCode>(code),
    {
        let mut status_to_fill: MotionProfileStatus = MotionProfileStatus::default();
        let code: ErrorCode = status_to_fill.fill(raw, code);
        if code.is_ok() {
            Ok(status_to_fill)
        } else {
            Err(code)
        }
    }
}

impl Default for MotionProfileStatus {
    fn default() -> (r: Self)
        ensures
            r == MotionProfileStatus::empty_value(),
    {
        MotionProfileStatus {
            top_buffer_rem: 0,
            top_buffer_cnt: 0,
            btm_buffer_cnt: 0,
            has_underrun: false,
            is_underrun: false,
            active_point_valid: false,
            is_last: false,
            profile_slot_select_0: 0,
            profile_slot_select_1: 0,
            output_enable: SetValueMotionProfile::Invalid,
            time_dur_ms: 0,
        }
    }
}

/// A report in which the controller wrote nothing leaves the snapshot as it
/// was, but for the output state, which reads as disabled.
pub proof fn lemma_unwritten_report_keeps_snapshot(status: MotionProfileStatus)
    ensures
        status.raw_before_value().decoded() == (MotionProfileStatus {
            output_enable: SetValueMotionProfile::Disable,
            ..status
        }),
{
}

impl From<i32> for SetValueMotionProfile {
    fn from(value: i32) -> (r: SetValueMotionProfile) {
        SetValueMotionProfile::from_raw(value)
    }
}

impl vstd::std_specs::convert::FromSpecImpl<i32> for SetValueMotionProfile {
    open spec fn obeys_from_spec() -> bool {
        true
    }

    open spec fn from_spec(value: i32) -> SetValueMotionProfile {
        SetValueMotionProfile::from_raw_value(value)
    }
}

impl Default for SetValueMotionProfile {
    fn default() -> (r: Self)
        ensures
            r == SetValueMotionProfile::Invalid,
    {
        SetValueMotionProfile::Invalid
    }
}

impl Default for TrajectoryDuration {
    fn default() -> (r: Self)
        ensures
            r == TrajectoryDuration::T0ms,
    {
        TrajectoryDuration::T0ms
    }
}

impl Default for TrajectoryPoint {
    fn default() -> (r: Self)
        ensures
            r == TrajectoryPoint::zero_value(),
    {
        TrajectoryPoint {
            position: Demand::zero(),
            velocity: Demand::zero(),
            auxiliary_pos: Demand::zero(),
            profile_slot_select_0: 0,
            profile_slot_select_1: 0,
            is_last_point: false,
            zero_pos: false,
            time_dur: TrajectoryDuration::T0ms,
        }
    }
}

} // verus!
