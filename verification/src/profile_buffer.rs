//! The two-level buffer that a motion profile is streamed through, as a state
//! machine.
//!
//! The top buffer takes every point pushed; `process` hands on as many as the
//! bottom buffer has room for, oldest first. The bottom buffer never holds
//! more than its capacity. The executer takes the oldest point of the bottom
//! buffer as its active point; when it wants one and finds none it is in
//! underrun, and the sticky flag remembers that until it is cleared. An active
//! point marked as last is held, so the end of a profile is no underrun.

use vstd::prelude::*;
use crate::error::ErrorCode;
use crate::motion::MotionProfileStatus;
use crate::motion::SetValueMotionProfile;
use crate::motion::TrajectoryPoint;
use crate::reply::Reply;
use crate::request::FlagQuery;
use crate::request::Request;
use crate::request::StatusQuery;
use crate::request::WholeQuery;

verus! {

/// The state of the buffers and of the executer they feed.
pub struct BufferModel {
    /// The points pushed and not yet handed on, oldest first.
    pub top: Seq<TrajectoryPoint>,
    /// The points handed on and not yet taken by the executer, oldest first.
    pub bottom: Seq<TrajectoryPoint>,
    /// The size from which the top buffer reports itself full.
    pub top_capacity: nat,
    /// The most points the bottom buffer holds.
    pub bottom_capacity: nat,
    pub has_underrun: bool,
    pub is_underrun: bool,
    /// The point the executer is applying.
    pub active: Option<TrajectoryPoint>,
    pub output_enable: SetValueMotionProfile,
}

/// What can happen once the points are pushed.
pub enum BufferEvent {
    /// `process` is called.
    Process,
    /// The executer moves on to its next point.
    ExecuterStep,
}

/// A count as a status field holds it.
pub open spec fn count_value(n: nat) -> i32 {
    if n > i32::MAX {
        i32::MAX
    } else {
        n as i32
    }
}

/// A gain slot as a status field holds it.
pub open spec fn slot_value(slot: u32) -> i32 {
    if slot > i32::MAX {
        i32::MAX
    } else {
        slot as i32
    }
}

impl BufferModel {
    /// The bottom buffer is within its capacity.
    pub open spec fn well_formed(self) -> bool {
        self.bottom.len() <= self.bottom_capacity
    }

    /// How many more points the bottom buffer can take.
    pub open spec fn room(self) -> nat {
        if self.bottom.len() >= self.bottom_capacity {
            0
        } else {
            (self.bottom_capacity - self.bottom.len()) as nat
        }
    }

    /// How many more points the top buffer takes before it reports itself
    /// full.
    pub open spec fn top_room(self) -> nat {
        if self.top.len() >= self.top_capacity {
            0
        } else {
            (self.top_capacity - self.top.len()) as nat
        }
    }

    /// How many points one `process` hands on: all there are, or as many as
    /// fit.
    pub open spec fn moved(self) -> nat {
        if self.top.len() <= self.room() {
            self.top.len()
        } else {
            self.room()
        }
    }

    pub open spec fn top_is_full(self) -> bool {
        self.top.len() >= self.top_capacity
    }

    pub open spec fn pushed(self, point: TrajectoryPoint) -> BufferModel {
        BufferModel { top: self.top.push(point), ..self }
    }

    pub open spec fn processed(self) -> BufferModel {
        BufferModel {
            top: self.top.skip(self.moved() as int),
            bottom: self.bottom + self.top.take(self.moved() as int),
            ..self
        }
    }

    pub open spec fn cleared(self) -> BufferModel {
        BufferModel { top: Seq::empty(), bottom: Seq::empty(), ..self }
    }

    pub open spec fn underrun_cleared(self) -> BufferModel {
        BufferModel { has_underrun: false, ..self }
    }

    /// The executer holds the last point of a profile.
    pub open spec fn holds_last(self) -> bool {
        self.active is Some && self.active->0.is_last_point
    }

    pub open spec fn stepped(self) -> BufferModel {
        if self.holds_last() {
            self
        } else if self.bottom.len() > 0 {
            BufferModel {
                bottom: self.bottom.skip(1),
                active: Some(self.bottom[0]),
                is_underrun: false,
                ..self
            }
        } else {
            BufferModel { is_underrun: true, has_underrun: true, ..self }
        }
    }

    pub open spec fn after(self, event: BufferEvent) -> BufferModel {
        match event {
            BufferEvent::Process => self.processed(),
            BufferEvent::ExecuterStep => self.stepped(),
        }
    }

    /// The state after `events`, in their order.
    pub open spec fn run(self, events: Seq<BufferEvent>) -> BufferModel
        decreases events.len(),
    {
        if events.len() == 0 {
            self
        } else {
            self.after(events[0]).run(events.skip(1))
        }
    }

    /// How many points the `process` calls among `events` hand on in all.
    pub open spec fn total_moved(self, events: Seq<BufferEvent>) -> nat
        decreases events.len(),
    {
        if events.len() == 0 {
            0
        } else {
            let first: nat = match events[0] {
                BufferEvent::Process => self.moved(),
                BufferEvent::ExecuterStep => 0,
            };
            first + self.after(events[0]).total_moved(events.skip(1))
        }
    }

    /// The state after `request`, for the requests that concern the buffers;
    /// any other request leaves it as it is.
    pub open spec fn requested(self, request: Request) -> BufferModel {
        match request {
            Request::PushMotionProfileTrajectory { traj_pt } => self.pushed(traj_pt),
            Request::ProcessMotionProfileBuffer => self.processed(),
            Request::ClearMotionProfileTrajectories => self.cleared(),
            Request::ClearMotionProfileHasUnderrun { timeout_ms } => self.underrun_cleared(),
            _ => self,
        }
    }

    /// The answer to `request`, for the requests that concern the buffers;
    /// there is none to any other.
    pub open spec fn answer_to(self, request: Request) -> Option<Reply> {
        match request {
            Request::PushMotionProfileTrajectory { traj_pt } => Some(Reply::Code(ErrorCode::OK)),
            Request::ProcessMotionProfileBuffer => Some(Reply::Done),
            Request::ClearMotionProfileTrajectories => Some(Reply::Code(ErrorCode::OK)),
            Request::ClearMotionProfileHasUnderrun { timeout_ms } => Some(
                Reply::Code(ErrorCode::OK),
            ),
            _ => None,
        }
    }

    /// The answer to `query` in this state, for the one question of its kind
    /// that concerns the buffers; there is none to any other.
    pub open spec fn whole_answer_to(self, query: WholeQuery) -> Option<Result<i32, ErrorCode>> {
        match query {
            WholeQuery::GetMotionProfileTopLevelBufferCount => Some(
                Ok(count_value(self.top.len())),
            ),
            _ => None,
        }
    }

    /// The answer to `query` in this state, for the one question of its kind
    /// that concerns the buffers; there is none to any other.
    pub open spec fn flag_answer_to(self, query: FlagQuery) -> Option<Result<bool, ErrorCode>> {
        match query {
            FlagQuery::IsMotionProfileTopLevelBufferFull => Some(Ok(self.top_is_full())),
            _ => None,
        }
    }

    pub open spec fn status(self) -> MotionProfileStatus {
        MotionProfileStatus {
            top_buffer_rem: count_value(self.top_room()),
            top_buffer_cnt: count_value(self.top.len()),
            btm_buffer_cnt: count_value(self.bottom.len()),
            has_underrun: self.has_underrun,
            is_underrun: self.is_underrun,
            active_point_valid: self.active is Some,
            is_last: self.holds_last(),
            profile_slot_select_0: match self.active {
                Some(point) => slot_value(point.profile_slot_select_0),
                None => 0,
            },
            profile_slot_select_1: match self.active {
                Some(point) => slot_value(point.profile_slot_select_1),
                None => 0,
            },
            output_enable: self.output_enable,
            time_dur_ms: match self.active {
                Some(point) => point.time_dur.millis_value(),
                None => 0,
            },
        }
    }
}

/// The buffers of one controller.
pub struct MotionProfileBuffer {
    top: Vec<TrajectoryPoint>,
    bottom: Vec<TrajectoryPoint>,
    top_capacity: usize,
    bottom_capacity: usize,
    has_underrun: bool,
    is_underrun: bool,
    active: Option<TrajectoryPoint>,
    output_enable: SetValueMotionProfile,
}

impl View for MotionProfileBuffer {
    type V = BufferModel;

    closed spec fn view(&self) -> BufferModel {
        BufferModel {
            top: self.top@,
            bottom: self.bottom@,
            top_capacity: self.top_capacity as nat,
            bottom_capacity: self.bottom_capacity as nat,
            has_underrun: self.has_underrun,
            is_underrun: self.is_underrun,
            active: self.active,
            output_enable: self.output_enable,
        }
    }
}

fn count_of(n: usize) -> (r: i32)
    ensures
        r == count_value(n as nat),
{
    if n > 0x7fff_ffff {
        i32::MAX
    } else {
        n as i32
    }
}

fn slot_of(slot: u32) -> (r: i32)
    ensures
        r == slot_value(slot),
{
    if slot > 0x7fff_ffff {
        i32::MAX
    } else {
        slot as i32
    }
}

impl MotionProfileBuffer {
    /// Empty buffers with the given capacities, an idle executer and no
    /// underrun.
    pub fn new(top_capacity: usize, bottom_capacity: usize) -> (r: Self)
        ensures
            r@.well_formed(),
            r@ == (BufferModel {
                top: Seq::empty(),
                bottom: Seq::empty(),
                top_capacity: top_capacity as nat,
                bottom_capacity: bottom_capacity as nat,
                has_underrun: false,
                is_underrun: false,
                active: None,
                output_enable: SetValueMotionProfile::Disable,
            }),
    {
        MotionProfileBuffer {
            top: Vec::new(),
            bottom: Vec::new(),
            top_capacity,
            bottom_capacity,
            has_underrun: false,
            is_underrun: false,
            active: None,
            output_enable: SetValueMotionProfile::Disable,
        }
    }

    /// Appends `traj_pt` to the top buffer. The top buffer refuses nothing,
    /// full or not.
    pub fn push_motion_profile_trajectory(&mut self, traj_pt: &TrajectoryPoint) -> (r: ErrorCode)
        requires
            old(self)@.well_formed(),
        ensures
            final(self)@ == old(self)@.pushed(*traj_pt),
            final(self)@.well_formed(),
            r.is_ok_value(),
    {
        self.top.push(*traj_pt);
        ErrorCode::OK
    }

    /// How many points the top buffer holds.
    pub fn get_motion_profile_top_level_buffer_count(&self) -> (r: Result<i32, ErrorCode>)
        ensures
            r == Ok::<i32, ErrorCode>(count_value(self@.top.len())),
    {
        Ok(count_of(self.top.len()))
    }

    /// Whether the top buffer has reached its capacity.
    pub fn is_motion_profile_top_level_buffer_full(&self) -> (r: Result<bool, ErrorCode>)
        ensures
            r == Ok::<bool, ErrorCode>(self@.top_is_full()),
    {
        Ok(self.top.len() >= self.top_capacity)
    }

    /// Hands on as many points as the bottom buffer has room for, oldest
    /// first. Nothing else moves points from the top buffer to the bottom.
    pub fn process_motion_profile_buffer(&mut self)
        requires
            old(self)@.well_formed(),
        ensures
            final(self)@ == old(self)@.processed(),
            final(self)@.well_formed(),
    {
        let room: usize = self.bottom_capacity - self.bottom.len();
        let moved: usize = if self.top.len() <= room { self.top.len() } else { room };
        let mut rest: Vec<TrajectoryPoint> = self.top.split_off(moved);
        self.bottom.append(&mut self.top);
        self.top.append(&mut rest);
        proof {
            assert(self.top@ =~= old(self)@.top.skip(moved as int));
            assert(self.bottom@ =~= old(self)@.bottom + old(self)@.top.take(moved as int));
        }
    }

    /// Fills in a snapshot of both buffers, the flags and the executer.
    pub fn get_motion_profile_status(&self, status_to_fill: &mut MotionProfileStatus) -> (r:
        ErrorCode)
        ensures
            *final(status_to_fill) == self@.status(),
            r.is_ok_value(),
    {
        status_to_fill.top_buffer_rem = if self.top.len() >= self.top_capacity {
            0
        } else {
            count_of(self.top_capacity - self.top.len())
        };
        status_to_fill.top_buffer_cnt = count_of(self.top.len());
        status_to_fill.btm_buffer_cnt = count_of(self.bottom.len());
        status_to_fill.has_underrun = self.has_underrun;
        status_to_fill.is_underrun = self.is_underrun;
        match self.active {
            Some(point) => {
                status_to_fill.active_point_valid = true;
                status_to_fill.is_last = point.is_last_point;
                status_to_fill.profile_slot_select_0 = slot_of(point.profile_slot_select_0);
                status_to_fill.profile_slot_select_1 = slot_of(point.profile_slot_select_1);
                status_to_fill.time_dur_ms = point.time_dur.millis();
            },
            None => {
                status_to_fill.active_point_valid = false;
                status_to_fill.is_last = false;
                status_to_fill.profile_slot_select_0 = 0;
                status_to_fill.profile_slot_select_1 = 0;
                status_to_fill.time_dur_ms = 0;
            },
        }
        status_to_fill.output_enable = self.output_enable;
        ErrorCode::OK
    }

    /// A new snapshot of both buffers, the flags and the executer.
    pub fn get_new_motion_profile_status(&self) -> (r: Result<MotionProfileStatus, ErrorCode>)
        ensures
            r == Ok::<MotionProfileStatus, ErrorCode>(self@.status()),
    {
        let mut status_to_fill: MotionProfileStatus = MotionProfileStatus::default();
        let code: ErrorCode = self.get_motion_profile_status(&mut status_to_fill);
        if code.is_ok() {
            Ok(status_to_fill)
        } else {
            Err(code)
        }
    }

    /// Empties both buffers. The flags and the executer's point stay.
    pub fn clear_motion_profile_trajectories(&mut self) -> (r: ErrorCode)
        ensures
            final(self)@ == old(self)@.cleared(),
            final(self)@.well_formed(),
            r.is_ok_value(),
    {
        self.top.clear();
        self.bottom.clear();
        ErrorCode::OK
    }

    /// Clears the sticky underrun flag. Whether the executer is starved right
    /// now is another flag, which this leaves alone. Nothing is waited for, so
    /// the timeout plays no part.
    pub fn clear_motion_profile_has_underrun(&mut self, timeout_ms: i32) -> (r: ErrorCode)
        ensures
            final(self)@ == old(self)@.underrun_cleared(),
            r.is_ok_value(),
    {
        self.has_underrun = false;
        ErrorCode::OK
    }

    /// Takes a request in the controller's place. The four requests that
    /// concern the buffers are carried out and answered as the methods of the
    /// same names do; any other request changes nothing and has no answer
    /// here.
    pub fn answer(&mut self, request: Request) -> (r: Option<Reply>)
        requires
            old(self)@.well_formed(),
        ensures
            final(self)@ == old(self)@.requested(request),
            final(self)@.well_formed(),
            r == old(self)@.answer_to(request),
    {
        match request {
            Request::PushMotionProfileTrajectory { traj_pt } => {
                let code: ErrorCode = self.push_motion_profile_trajectory(&traj_pt);
                Some(Reply::Code(code))
            },
            Request::ProcessMotionProfileBuffer => {
                self.process_motion_profile_buffer();
                Some(Reply::Done)
            },
            Request::ClearMotionProfileTrajectories => {
                let code: ErrorCode = self.clear_motion_profile_trajectories();
                Some(Reply::Code(code))
            },
            Request::ClearMotionProfileHasUnderrun { timeout_ms } => {
                let code: ErrorCode = self.clear_motion_profile_has_underrun(timeout_ms);
                Some(Reply::Code(code))
            },
            _ => None,
        }
    }

    /// Answers, in the controller's place, the question for the count of the
    /// top buffer; no other question for a whole number has an answer here.
    /// Nothing is changed.
    pub fn answer_whole(&self, query: WholeQuery) -> (r: Option<Result<i32, ErrorCode>>)
        ensures
            r == self@.whole_answer_to(query),
    {
        match query {
            WholeQuery::GetMotionProfileTopLevelBufferCount => Some(
                self.get_motion_profile_top_level_buffer_count(),
            ),
            _ => None,
        }
    }

    /// Answers, in the controller's place, the question whether the top buffer
    /// is full; no other question for a flag has an answer here. Nothing is
    /// changed.
    pub fn answer_flag(&self, query: FlagQuery) -> (r: Option<Result<bool, ErrorCode>>)
        ensures
            r == self@.flag_answer_to(query),
    {
        match query {
            FlagQuery::IsMotionProfileTopLevelBufferFull => Some(
                self.is_motion_profile_top_level_buffer_full(),
            ),
            _ => None,
        }
    }

    /// Answers, in the controller's place, the question for a snapshot.
    /// Nothing is changed.
    pub fn answer_status(&self, query: StatusQuery) -> (r: Result<MotionProfileStatus, ErrorCode>)
        ensures
            r == Ok::<MotionProfileStatus, ErrorCode>(self@.status()),
    {
        self.get_new_motion_profile_status()
    }

    /// Sets whether the executer drives the output.
    pub fn set_output_enable(&mut self, value: SetValueMotionProfile)
        ensures
            final(self)@ == (BufferModel { output_enable: value, ..old(self)@ }),
    {
        self.output_enable = value;
    }

    /// The executer moves on: it takes the oldest point of the bottom buffer
    /// as its active point, or, finding none, is in underrun. While it holds a
    /// profile's last point it takes no other and is not starved.
    pub fn executer_step(&mut self)
        requires
            old(self)@.well_formed(),
        ensures
            final(self)@ == old(self)@.stepped(),
            final(self)@.well_formed(),
    {
        let holds_last: bool = match self.active {
            Some(point) => point.is_last_point,
            None => false,
        };
        if holds_last {
        } else if self.bottom.len() > 0 {
            let point: TrajectoryPoint = self.bottom.remove(0);
            self.active = Some(point);
            self.is_underrun = false;
            proof {
                assert(self.bottom@ =~= old(self)@.bottom.skip(1));
            }
        } else {
            self.is_underrun = true;
            self.has_underrun = true;
        }
    }

    /// The point at place `index` of the top buffer, the oldest being at 0.
    pub fn top_point(&self, index: usize) -> (r: Option<TrajectoryPoint>)
        ensures
            index < self@.top.len() ==> r == Some(self@.top[index as int]),
            index >= self@.top.len() ==> r is None,
    {
        if index < self.top.len() {
            Some(self.top[index])
        } else {
            None
        }
    }

    /// The point at place `index` of the bottom buffer, the oldest being at 0.
    pub fn bottom_point(&self, index: usize) -> (r: Option<TrajectoryPoint>)
        ensures
            index < self@.bottom.len() ==> r == Some(self@.bottom[index as int]),
            index >= self@.bottom.len() ==> r is None,
    {
        if index < self.bottom.len() {
            Some(self.bottom[index])
        } else {
            None
        }
    }

    /// The point the executer is applying.
    pub fn active_point(&self) -> (r: Option<TrajectoryPoint>)
        ensures
            r == self@.active,
    {
        self.active
    }
}

/// Neither `process` nor the executer ever leaves more points in the bottom
/// buffer than it can hold.
pub proof fn lemma_event_keeps_capacity(m: BufferModel, event: BufferEvent)
    requires
        m.well_formed(),
    ensures
        m.after(event).well_formed(),
        m.after(event).bottom_capacity == m.bottom_capacity,
{
}

/// Once the points are pushed, whatever order `process` calls and executer
/// steps come in: the bottom buffer stays within its capacity, the points
/// handed on so far are the oldest of those pushed, in their order, and their
/// number plus what the top buffer still holds is the number pushed. So when
/// the top buffer is empty, every point has been handed on.
pub proof fn lemma_run_drains_in_order(m: BufferModel, events: Seq<BufferEvent>)
    requires
        m.well_formed(),
    ensures
        m.run(events).well_formed(),
        m.run(events).bottom.len() <= m.bottom_capacity,
        m.total_moved(events) + m.run(events).top.len() == m.top.len(),
        m.run(events).top == m.top.skip(m.total_moved(events) as int),
        m.run(events).top.len() == 0 ==> m.total_moved(events) == m.top.len(),
    decreases events.len(),
{
    if events.len() == 0 {
        assert(m.top.skip(0) =~= m.top);
    } else {
        let next = m.after(events[0]);
        let first: nat = match events[0] {
            BufferEvent::Process => m.moved(),
            BufferEvent::ExecuterStep => 0,
        };
        lemma_event_keeps_capacity(m, events[0]);
        assert(next.top =~= m.top.skip(first as int));
        lemma_run_drains_in_order(next, events.skip(1));
        let later = next.total_moved(events.skip(1));
        assert(m.top.skip(first as int).skip(later as int) =~= m.top.skip((first + later) as int));
    }
}

/// Every state on the way is within capacity: this holds of each prefix of the
/// events, not only of them all.
pub proof fn lemma_run_within_capacity_throughout(
    m: BufferModel,
    events: Seq<BufferEvent>,
    steps: int,
)
    requires
        m.well_formed(),
        0 <= steps <= events.len(),
    ensures
        m.run(events.take(steps)).bottom.len() <= m.bottom_capacity,
{
    lemma_run_drains_in_order(m, events.take(steps));
}

/// A snapshot counts what the buffers hold: for buffers within the range of
/// its 32-bit fields the two counts are the two lengths, the bottom count is
/// within the capacity, and the room left in the top buffer is not negative.
/// Beyond that range a count stays at the largest value its field holds.
pub proof fn lemma_status_counts(m: BufferModel)
    requires
        m.well_formed(),
    ensures
        m.top.len() <= i32::MAX ==> m.status().top_buffer_cnt == m.top.len(),
        m.bottom.len() <= i32::MAX ==> m.status().btm_buffer_cnt == m.bottom.len(),
        0 <= m.status().btm_buffer_cnt <= m.bottom_capacity,
        0 <= m.status().top_buffer_cnt,
        0 <= m.status().top_buffer_rem,
        m.top.len() < m.top_capacity <= i32::MAX ==> m.status().top_buffer_rem
            == m.top_capacity - m.top.len(),
        m.top.len() >= m.top_capacity ==> m.status().top_buffer_rem == 0,
        m.status().has_underrun == m.has_underrun,
        m.status().is_underrun == m.is_underrun,
{
}

/// Right after the sticky flag is cleared a snapshot shows it cleared, and
/// shows the momentary flag as it was.
pub proof fn lemma_cleared_underrun_shows_in_status(m: BufferModel)
    ensures
        m.underrun_cleared().status().has_underrun == false,
        m.underrun_cleared().status().is_underrun == m.is_underrun,
{
}

/// A point pushed is held as it was given: it is the newest of the top buffer,
/// and once `process` has handed it on it is the newest of the bottom buffer,
/// equal in every field.
pub proof fn lemma_pushed_point_is_kept(m: BufferModel, point: TrajectoryPoint)
    requires
        m.well_formed(),
    ensures
        m.pushed(point).top.last() == point,
        m.top.len() < m.room() ==> m.pushed(point).processed().bottom.last() == point,
{
}

} // verus!
