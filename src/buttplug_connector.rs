//! The device session manager: the state machine that owns the connection to
//! the haptic backend and the registry of the devices it has discovered.
//!
//! Each entry point takes one input (a command, a backend event, the outcome of
//! a backend call, an expired stop timer) and returns a [`SessionStep`]: the
//! backend calls to make and the reports to send to the coordinator. The runtime
//! performs the calls and feeds their outcomes back. Devices are addressed by
//! the index that the backend assigned to them.

use vstd::prelude::*;
use crate::configuration_manager::FULL_INTENSITY_PERMILLE;
use crate::message_passing::{
    log_text, push_log, push_report, sans_logs, ClonableButtplugClientDevice,
    CommandToAsyncTasks, UpdateFromAsyncTasks,
};

verus! {

/// The kind of a scalar actuator channel of a device.
#[derive(Clone, Copy, Debug, PartialEq, Eq, Structural)]
pub enum ActuatorKind {
    Vibrate,
    Rotate,
    Oscillate,
    Constrict,
    Inflate,
    Position,
    Other,
}

/// One scalar actuator channel of a device.
#[derive(Clone, Copy, Debug, PartialEq, Eq, Structural)]
pub struct ActuatorChannel {
    pub feature_index: u32,
    pub kind: ActuatorKind,
}

/// A discovered device: its backend index, its name, its scalar channels, the
/// runtime's handle to it, and the request of the stop that is due for it, if any.
#[derive(Debug)]
pub struct DeviceEntry<H> {
    pub index: u32,
    pub name: String,
    pub scalar_channels: Vec<ActuatorChannel>,
    pub handle: H,
    pub pending_stop_request: Option<u64>,
}

impl<H> DeviceEntry<H> {
    pub fn new(index: u32, name: String, scalar_channels: Vec<ActuatorChannel>, handle: H) -> (r: Self)
        ensures
            r.index == index,
            r.name == name,
            r.scalar_channels == scalar_channels,
            r.handle == handle,
            r.pending_stop_request is None,
    {
        DeviceEntry { index, name, scalar_channels, handle, pending_stop_request: None }
    }
}

/// The connection lifecycle.
#[derive(Clone, Copy, Debug, PartialEq, Eq, Structural)]
pub enum SessionState {
    Uninitialized,
    Connecting,
    Connected,
}

/// A stop to schedule: after the delay, the runtime reports the request back.
#[derive(Clone, Copy, Debug, PartialEq, Eq, Structural)]
pub struct StopTimer {
    pub request: u64,
    pub after_milliseconds: u64,
}

/// A call for the runtime to make on the backend.
#[derive(Clone, Debug)]
pub enum BackendAction {
    Connect,
    StartScanning,
    /// One scalar sub-command per listed feature, all at the same speed.
    Vibrate {
        device_index: u32,
        feature_indices: Vec<u32>,
        speed_permille: u16,
        stop_timer: Option<StopTimer>,
    },
    StopDevice(u32),
    Disconnect,
}

/// An event of the backend's event stream.
#[derive(Debug)]
pub enum BackendEvent<H> {
    DeviceAdded(DeviceEntry<H>),
    DeviceRemoved(u32),
    ServerDisconnect,
    PingTimeout,
    StreamError { message: String, connector_lost: bool },
    StreamEnded,
}

/// What one input of the session manager leads to.
#[derive(Debug)]
pub struct SessionStep {
    pub actions: Vec<BackendAction>,
    pub updates: Vec<UpdateFromAsyncTasks>,
}

/// The device session manager.
#[derive(Debug)]
pub struct DeviceSession<H> {
    pub state: SessionState,
    pub registry: Vec<DeviceEntry<H>>,
    pub next_request: u64,
}

pub open spec fn has_device<H>(reg: Seq<DeviceEntry<H>>, i: u32) -> bool {
    exists|p: int| 0 <= p < reg.len() && (#[trigger] reg[p]).index == i
}

/// The position of the device with index `i` (meaningful where it is present).
pub open spec fn device_position<H>(reg: Seq<DeviceEntry<H>>, i: u32) -> int {
    choose|p: int| 0 <= p < reg.len() && (#[trigger] reg[p]).index == i
}

/// At most one entry per backend index.
pub open spec fn unique_indices<H>(reg: Seq<DeviceEntry<H>>) -> bool {
    forall|p: int, q: int|
        0 <= p < reg.len() && 0 <= q < reg.len() && p != q ==> (#[trigger] reg[p]).index
            != (#[trigger] reg[q]).index
}

/// The features of the vibration channels, in channel order.
pub open spec fn vibrate_features(chans: Seq<ActuatorChannel>) -> Seq<u32>
    decreases chans.len(),
{
    if chans.len() == 0 {
        Seq::empty()
    } else if chans.last().kind == ActuatorKind::Vibrate {
        vibrate_features(chans.drop_last()).push(chans.last().feature_index)
    } else {
        vibrate_features(chans.drop_last())
    }
}

pub open spec fn summary_of<H>(e: DeviceEntry<H>) -> ClonableButtplugClientDevice {
    ClonableButtplugClientDevice { index: e.index, name: e.name }
}

pub open spec fn with_pending_stop<H>(e: DeviceEntry<H>, request: Option<u64>) -> DeviceEntry<H> {
    DeviceEntry { pending_stop_request: request, ..e }
}

/// The request that follows `n`.
pub open spec fn request_after(n: u64) -> u64 {
    if n < u64::MAX {
        (n + 1) as u64
    } else {
        0
    }
}

/// The registry after one backend event that arrives during a session.
pub open spec fn registry_after_event<H>(
    reg: Seq<DeviceEntry<H>>,
    ev: BackendEvent<H>,
) -> Seq<DeviceEntry<H>> {
    match ev {
        BackendEvent::DeviceAdded(e) => if has_device(reg, e.index) {
            reg
        } else {
            reg.push(with_pending_stop(e, None))
        },
        BackendEvent::DeviceRemoved(i) => if has_device(reg, i) {
            reg.remove(device_position(reg, i))
        } else {
            reg
        },
        BackendEvent::StreamError { connector_lost, .. } => if connector_lost {
            Seq::empty()
        } else {
            reg
        },
        _ => Seq::empty(),
    }
}

/// The reports other than log lines that a backend event arriving during a
/// session leads to.
pub open spec fn event_reports<H>(reg: Seq<DeviceEntry<H>>, ev: BackendEvent<H>) -> Seq<
    UpdateFromAsyncTasks,
> {
    match ev {
        BackendEvent::DeviceAdded(e) => if has_device(reg, e.index) {
            Seq::empty()
        } else {
            seq![UpdateFromAsyncTasks::ButtplugDeviceFound(summary_of(e))]
        },
        BackendEvent::DeviceRemoved(i) => if has_device(reg, i) {
            seq![UpdateFromAsyncTasks::ButtplugDeviceLost(summary_of(reg[device_position(reg, i)]))]
        } else {
            Seq::empty()
        },
        BackendEvent::StreamError { message, connector_lost } => if connector_lost {
            seq![
                UpdateFromAsyncTasks::ButtplugError(message),
                UpdateFromAsyncTasks::ButtplugDisconnected,
            ]
        } else {
            seq![UpdateFromAsyncTasks::ButtplugError(message)]
        },
        _ => seq![UpdateFromAsyncTasks::ButtplugDisconnected],
    }
}

/// The reports of a sequence of backend events, each arriving during a session.
pub open spec fn events_reports<H>(
    reg: Seq<DeviceEntry<H>>,
    evs: Seq<BackendEvent<H>>,
) -> Seq<UpdateFromAsyncTasks>
    decreases evs.len(),
{
    if evs.len() == 0 {
        Seq::empty()
    } else {
        events_reports(reg, evs.drop_last()) + event_reports(
            registry_after_events(reg, evs.drop_last()),
            evs.last(),
        )
    }
}

/// The registry after a sequence of backend events, each arriving during a session.
pub open spec fn registry_after_events<H>(
    reg: Seq<DeviceEntry<H>>,
    evs: Seq<BackendEvent<H>>,
) -> Seq<DeviceEntry<H>>
    decreases evs.len(),
{
    if evs.len() == 0 {
        reg
    } else {
        registry_after_event(registry_after_events(reg, evs.drop_last()), evs.last())
    }
}

proof fn lemma_event_keeps_indices_unique<H>(reg: Seq<DeviceEntry<H>>, ev: BackendEvent<H>)
    requires
        unique_indices(reg),
    ensures
        unique_indices(registry_after_event(reg, ev)),
{
    match ev {
        BackendEvent::DeviceAdded(e) => {
            if !has_device(reg, e.index) {
                let r = reg.push(with_pending_stop(e, None));
                assert forall|p: int, q: int|
                    0 <= p < r.len() && 0 <= q < r.len() && p != q implies (#[trigger] r[p]).index
                        != (#[trigger] r[q]).index by {
                    if p == reg.len() {
                        assert(reg[q] == r[q]);
                    } else if q == reg.len() {
                        assert(reg[p] == r[p]);
                    } else {
                        assert(reg[p] == r[p] && reg[q] == r[q]);
                    }
                }
            }
        },
        BackendEvent::DeviceRemoved(i) => {
            if has_device(reg, i) {
                let k = device_position(reg, i);
                reg.remove_ensures(k);
                let r = reg.remove(k);
                assert forall|p: int, q: int|
                    0 <= p < r.len() && 0 <= q < r.len() && p != q implies (#[trigger] r[p]).index
                        != (#[trigger] r[q]).index by {
                    let pp = if p < k { p } else { p + 1 };
                    let qq = if q < k { q } else { q + 1 };
                    assert(r[p] == reg[pp] && r[q] == reg[qq]);
                }
            }
        },
        _ => {},
    }
}

/// Device discovery is idempotent: whatever sequence of additions and removals
/// (with repeated indices) the backend reports, the registry holds at most one
/// entry per backend index.
pub proof fn lemma_discovery_keeps_indices_unique<H>(
    reg: Seq<DeviceEntry<H>>,
    evs: Seq<BackendEvent<H>>,
)
    requires
        unique_indices(reg),
    ensures
        unique_indices(registry_after_events(reg, evs)),
    decreases evs.len(),
{
    if evs.len() > 0 {
        lemma_discovery_keeps_indices_unique(reg, evs.drop_last());
        lemma_event_keeps_indices_unique(registry_after_events(reg, evs.drop_last()), evs.last());
    }
}


/// The features of the vibration channels of `chans`, in channel order.
pub fn vibrate_features_of(chans: &Vec<ActuatorChannel>) -> (r: Vec<u32>)
    ensures
        r@ == vibrate_features(chans@),
{
    let mut features: Vec<u32> = Vec::new();
    let mut i: usize = 0;
    while i < chans.len()
        invariant
            i <= chans@.len(),
            features@ == vibrate_features(chans@.subrange(0, i as int)),
        decreases chans@.len() - i,
    {
        assert(chans@.subrange(0, i + 1).drop_last() =~= chans@.subrange(0, i as int));
        if chans[i].kind == ActuatorKind::Vibrate {
            features.push(chans[i].feature_index);
        }
        i = i + 1;
    }
    assert(chans@.subrange(0, chans@.len() as int) =~= chans@);
    features
}

impl<H> DeviceSession<H> {
    /// Registry indices are unique, and the registry is empty unless connected.
    pub open spec fn wf(&self) -> bool {
        &&& unique_indices(self.registry@)
        &&& !(self.state is Connected) ==> self.registry@.len() == 0
    }

    /// Nothing changes and nothing but log lines is reported.
    pub open spec fn unchanged(pre: Self, post: Self, step: SessionStep) -> bool {
        &&& post == pre
        &&& step.actions@.len() == 0
        &&& sans_logs(step.updates@).len() == 0
    }

    pub open spec fn with_state(self, state: SessionState) -> Self {
        DeviceSession { state, ..self }
    }

    pub open spec fn scan_step(pre: Self, post: Self, step: SessionStep) -> bool {
        match pre.state {
            SessionState::Uninitialized => {
                &&& post == pre.with_state(SessionState::Connecting)
                &&& step.actions@ == seq![BackendAction::Connect]
                &&& sans_logs(step.updates@).len() == 0
            },
            SessionState::Connecting => Self::unchanged(pre, post, step),
            SessionState::Connected => {
                &&& post == pre
                &&& step.actions@ == seq![BackendAction::StartScanning]
                &&& sans_logs(step.updates@).len() == 0
            },
        }
    }

    /// A vibration reaches the backend only for a known device with a vibration
    /// channel; one with a duration schedules its own stop and supersedes any
    /// stop that was due for that device.
    pub open spec fn vibrate_step(
        pre: Self,
        post: Self,
        step: SessionStep,
        d: u32,
        speed: u16,
        t: u64,
    ) -> bool {
        let reg = pre.registry@;
        let p = device_position(reg, d);
        if pre.state is Connected && has_device(reg, d) && vibrate_features(
            reg[p].scalar_channels@,
        ).len() > 0 {
            let pending = if t > 0 {
                Some(pre.next_request)
            } else {
                None
            };
            let timer = if t > 0 {
                Some(StopTimer { request: pre.next_request, after_milliseconds: t })
            } else {
                None
            };
            &&& post.state == pre.state
            &&& post.registry@ == reg.update(p, with_pending_stop(reg[p], pending))
            &&& post.next_request == if t > 0 {
                request_after(pre.next_request)
            } else {
                pre.next_request
            }
            &&& step.actions@.len() == 1
            &&& step.actions@[0] matches BackendAction::Vibrate {
                device_index,
                feature_indices,
                speed_permille,
                stop_timer,
            }
            &&& device_index == d
            &&& feature_indices@ == vibrate_features(reg[p].scalar_channels@)
            &&& speed_permille == if speed > FULL_INTENSITY_PERMILLE {
                FULL_INTENSITY_PERMILLE
            } else {
                speed
            }
            &&& stop_timer == timer
            &&& sans_logs(step.updates@).len() == 0
        } else {
            Self::unchanged(pre, post, step)
        }
    }

    pub open spec fn stop_step(pre: Self, post: Self, step: SessionStep, d: u32) -> bool {
        let reg = pre.registry@;
        let p = device_position(reg, d);
        if pre.state is Connected && has_device(reg, d) {
            &&& post.state == pre.state
            &&& post.next_request == pre.next_request
            &&& post.registry@ == reg.update(p, with_pending_stop(reg[p], None))
            &&& step.actions@ == seq![BackendAction::StopDevice(d)]
            &&& sans_logs(step.updates@).len() == 0
        } else {
            Self::unchanged(pre, post, step)
        }
    }

    /// Whatever the state, a disconnection empties the registry and is reported
    /// exactly once.
    pub open spec fn disconnect_step(pre: Self, post: Self, step: SessionStep) -> bool {
        &&& post.state is Uninitialized
        &&& post.registry@.len() == 0
        &&& post.next_request == pre.next_request
        &&& step.actions@ == if pre.state is Uninitialized {
            Seq::empty()
        } else {
            seq![BackendAction::Disconnect]
        }
        &&& sans_logs(step.updates@) == seq![UpdateFromAsyncTasks::ButtplugDisconnected]
    }

    pub open spec fn command_step(
        pre: Self,
        post: Self,
        step: SessionStep,
        cmd: CommandToAsyncTasks,
    ) -> bool {
        match cmd {
            CommandToAsyncTasks::ScanForButtplugDevices => Self::scan_step(pre, post, step),
            CommandToAsyncTasks::VibrateDevice {
                device_index,
                speed_permille,
                duration_milliseconds,
            } => Self::vibrate_step(
                pre,
                post,
                step,
                device_index,
                speed_permille,
                duration_milliseconds,
            ),
            CommandToAsyncTasks::StopDevice(d) => Self::stop_step(pre, post, step, d),
            CommandToAsyncTasks::DisconnectButtplug => Self::disconnect_step(pre, post, step),
            _ => Self::unchanged(pre, post, step),
        }
    }

    pub open spec fn connect_step(
        pre: Self,
        post: Self,
        step: SessionStep,
        outcome: Result<(), String>,
    ) -> bool {
        if pre.state is Connecting {
            match outcome {
                Ok(_) => {
                    &&& post == pre.with_state(SessionState::Connected)
                    &&& step.actions@ == seq![BackendAction::StartScanning]
                    &&& sans_logs(step.updates@) == seq![UpdateFromAsyncTasks::ButtplugConnected]
                },
                Err(m) => {
                    &&& post == pre.with_state(SessionState::Uninitialized)
                    &&& step.actions@.len() == 0
                    &&& sans_logs(step.updates@) == seq![
                        UpdateFromAsyncTasks::ButtplugError(m),
                        UpdateFromAsyncTasks::ButtplugDisconnected,
                    ]
                },
            }
        } else {
            Self::unchanged(pre, post, step)
        }
    }

    pub open spec fn scan_outcome_step(
        pre: Self,
        post: Self,
        step: SessionStep,
        outcome: Result<(), String>,
    ) -> bool {
        &&& post == pre
        &&& step.actions@.len() == 0
        &&& sans_logs(step.updates@) == match outcome {
            Ok(_) => Seq::empty(),
            Err(m) => seq![UpdateFromAsyncTasks::ButtplugError(m)],
        }
    }

    pub open spec fn event_step(pre: Self, post: Self, step: SessionStep, ev: BackendEvent<H>) -> bool {
        let reg = pre.registry@;
        if pre.state is Connected {
            &&& post.registry@ == registry_after_event(reg, ev)
            &&& post.next_request == pre.next_request
            &&& step.actions@.len() == 0
            &&& sans_logs(step.updates@) == event_reports(reg, ev)
            &&& post.state == match ev {
                BackendEvent::DeviceAdded(_) => pre.state,
                BackendEvent::DeviceRemoved(_) => pre.state,
                BackendEvent::StreamError { connector_lost, .. } => if connector_lost {
                    SessionState::Uninitialized
                } else {
                    pre.state
                },
                _ => SessionState::Uninitialized,
            }
        } else {
            Self::unchanged(pre, post, step)
        }
    }

    pub open spec fn timer_step(pre: Self, post: Self, step: SessionStep, d: u32, request: u64) -> bool {
        let reg = pre.registry@;
        let p = device_position(reg, d);
        if pre.state is Connected && has_device(reg, d) && reg[p].pending_stop_request == Some(
            request,
        ) {
            &&& post.state == pre.state
            &&& post.next_request == pre.next_request
            &&& post.registry@ == reg.update(p, with_pending_stop(reg[p], None))
            &&& step.actions@ == seq![BackendAction::StopDevice(d)]
            &&& sans_logs(step.updates@).len() == 0
        } else {
            Self::unchanged(pre, post, step)
        }
    }

    /// A session with no backend connection and no device.
    pub fn new() -> (r: Self)
        ensures
            r.wf(),
            r.state is Uninitialized,
            r.registry@.len() == 0,
            r.next_request == 0,
    {
        DeviceSession { state: SessionState::Uninitialized, registry: Vec::new(), next_request: 0 }
    }

    /// The position of the device with backend index `i`.
    pub fn find_device(&self, i: u32) -> (r: Option<usize>)
        requires
            self.wf(),
        ensures
            match r {
                Some(p) => {
                    &&& has_device(self.registry@, i)
                    &&& p == device_position(self.registry@, i)
                    &&& p < self.registry@.len()
                    &&& self.registry@[p as int].index == i
                },
                None => !has_device(self.registry@, i),
            },
    {
        let mut k: usize = 0;
        while k < self.registry.len()
            invariant
                self.wf(),
                k <= self.registry@.len(),
                forall|j: int| 0 <= j < k ==> (#[trigger] self.registry@[j]).index != i,
            decreases self.registry@.len() - k,
        {
            if self.registry[k].index == i {
                proof {
                    let reg = self.registry@;
                    assert(reg[k as int].index == i);
                    assert(has_device(reg, i));
                    let q = device_position(reg, i);
                    assert(reg[q].index == i);
                    if q != k as int {
                        assert(reg[q].index != reg[k as int].index);
                    }
                }
                return Some(k);
            }
            k = k + 1;
        }
        None
    }

    /// The runtime's handle of the device with backend index `i`, if it is known.
    pub fn device_handle(&self, i: u32) -> (r: Option<&H>)
        requires
            self.wf(),
        ensures
            match r {
                Some(h) => has_device(self.registry@, i) && *h == self.registry@[device_position(
                    self.registry@,
                    i,
                )].handle,
                None => !has_device(self.registry@, i),
            },
    {
        match self.find_device(i) {
            Some(p) => Some(&self.registry[p].handle),
            None => None,
        }
    }

    fn set_pending_stop(&mut self, p: usize, request: Option<u64>)
        requires
            old(self).wf(),
            p < old(self).registry@.len(),
        ensures
            final(self).wf(),
            final(self).state == old(self).state,
            final(self).next_request == old(self).next_request,
            final(self).registry@ == old(self).registry@.update(
                p as int,
                with_pending_stop(old(self).registry@[p as int], request),
            ),
    {
        let ghost reg = self.registry@;
        let mut e = self.registry.remove(p);
        e.pending_stop_request = request;
        self.registry.insert(p, e);
        assert(self.registry@ =~= reg.update(p as int, with_pending_stop(reg[p as int], request)));
        assert forall|a: int, b: int|
            0 <= a < self.registry@.len() && 0 <= b < self.registry@.len() && a != b implies (
            #[trigger] self.registry@[a]).index != (#[trigger] self.registry@[b]).index by {
            assert(self.registry@[a].index == reg[a].index);
            assert(self.registry@[b].index == reg[b].index);
        }
    }

    fn empty_step() -> (r: SessionStep)
        ensures
            r.actions@.len() == 0,
            r.updates@.len() == 0,
    {
        SessionStep { actions: Vec::new(), updates: Vec::new() }
    }

    pub fn scan_for_devices(&mut self) -> (r: SessionStep)
        requires
            old(self).wf(),
        ensures
            final(self).wf(),
            Self::scan_step(*old(self), *final(self), r),
    {
        let mut r = Self::empty_step();
        assert(sans_logs(r.updates@) =~= Seq::empty());
        match self.state {
            SessionState::Uninitialized => {
                self.state = SessionState::Connecting;
                r.actions.push(BackendAction::Connect);
                assert(r.actions@ =~= seq![BackendAction::Connect]);
                push_log(&mut r.updates, String::from_str("Connecting to the haptic backend."));
            },
            SessionState::Connecting => {
                push_log(&mut r.updates, String::from_str("A connection is already being made."));
            },
            SessionState::Connected => {
                r.actions.push(BackendAction::StartScanning);
                assert(r.actions@ =~= seq![BackendAction::StartScanning]);
            },
        }
        r
    }

    pub fn vibrate_device(&mut self, device_index: u32, speed_permille: u16, duration_milliseconds: u64) -> (r: SessionStep)
        requires
            old(self).wf(),
        ensures
            final(self).wf(),
            Self::vibrate_step(*old(self), *final(self), r, device_index, speed_permille, duration_milliseconds),
    {
        let mut r = Self::empty_step();
        if self.state != SessionState::Connected {
            push_log(&mut r.updates, String::from_str("Not connected to the haptic backend: vibration dropped."));
            return r;
        }
        match self.find_device(device_index) {
            None => {
                push_log(&mut r.updates, String::from_str("No such device: vibration dropped."));
                r
            },
            Some(p) => {
                let feature_indices = vibrate_features_of(&self.registry[p].scalar_channels);
                if feature_indices.len() == 0 {
                    push_log(&mut r.updates, log_text("Device has no vibration channel: ", self.registry[p].name.as_str()));
                    return r;
                }
                let speed = if speed_permille > FULL_INTENSITY_PERMILLE {
                    FULL_INTENSITY_PERMILLE
                } else {
                    speed_permille
                };
                let stop_timer = if duration_milliseconds > 0 {
                    let request = self.next_request;
                    self.set_pending_stop(p, Some(request));
                    self.next_request = if request < u64::MAX { request + 1 } else { 0 };
                    Some(StopTimer { request, after_milliseconds: duration_milliseconds })
                } else {
                    self.set_pending_stop(p, None);
                    None
                };
                r.actions.push(BackendAction::Vibrate { device_index, feature_indices, speed_permille: speed, stop_timer });
                r
            },
        }
    }

    pub fn stop_device(&mut self, device_index: u32) -> (r: SessionStep)
        requires
            old(self).wf(),
        ensures
            final(self).wf(),
            Self::stop_step(*old(self), *final(self), r, device_index),
    {
        let mut r = Self::empty_step();
        if self.state != SessionState::Connected {
            push_log(&mut r.updates, String::from_str("Not connected to the haptic backend: stop dropped."));
            return r;
        }
        match self.find_device(device_index) {
            None => {
                push_log(&mut r.updates, String::from_str("No such device: stop dropped."));
            },
            Some(p) => {
                self.set_pending_stop(p, None);
                r.actions.push(BackendAction::StopDevice(device_index));
                assert(r.actions@ =~= seq![BackendAction::StopDevice(device_index)]);
            },
        }
        r
    }

    pub fn disconnect(&mut self) -> (r: SessionStep)
        requires
            old(self).wf(),
        ensures
            final(self).wf(),
            Self::disconnect_step(*old(self), *final(self), r),
    {
        let mut r = Self::empty_step();
        match self.state {
            SessionState::Uninitialized => {
                assert(r.actions@ =~= Seq::empty());
            },
            _ => {
                r.actions.push(BackendAction::Disconnect);
                assert(r.actions@ =~= seq![BackendAction::Disconnect]);
            },
        }
        self.state = SessionState::Uninitialized;
        self.registry.clear();
        assert(self.registry@ =~= Seq::empty());
        assert(sans_logs(r.updates@) =~= Seq::empty());
        push_report(&mut r.updates, UpdateFromAsyncTasks::ButtplugDisconnected);
        push_log(&mut r.updates, String::from_str("Disconnected from the haptic backend on request."));
        assert(sans_logs(r.updates@) =~= seq![UpdateFromAsyncTasks::ButtplugDisconnected]);
        r
    }

    /// Acts on one command from the coordinator.
    pub fn handle_command(&mut self, cmd: CommandToAsyncTasks) -> (r: SessionStep)
        requires
            old(self).wf(),
        ensures
            final(self).wf(),
            Self::command_step(*old(self), *final(self), r, cmd),
    {
        match cmd {
            CommandToAsyncTasks::ScanForButtplugDevices => self.scan_for_devices(),
            CommandToAsyncTasks::VibrateDevice { device_index, speed_permille, duration_milliseconds } => {
                self.vibrate_device(device_index, speed_permille, duration_milliseconds)
            },
            CommandToAsyncTasks::StopDevice(d) => self.stop_device(d),
            CommandToAsyncTasks::DisconnectButtplug => self.disconnect(),
            _ => Self::empty_step(),
        }
    }

    /// Acts on the outcome of a connection attempt.
    pub fn connect_finished(&mut self, outcome: Result<(), String>) -> (r: SessionStep)
        requires
            old(self).wf(),
        ensures
            final(self).wf(),
            Self::connect_step(*old(self), *final(self), r, outcome),
    {
        let mut r = Self::empty_step();
        assert(sans_logs(r.updates@) =~= Seq::empty());
        match self.state {
            SessionState::Connecting => {},
            _ => {
                return r;
            },
        }
        match outcome {
            Ok(_) => {
                self.state = SessionState::Connected;
                r.actions.push(BackendAction::StartScanning);
                push_report(&mut r.updates, UpdateFromAsyncTasks::ButtplugConnected);
                push_log(&mut r.updates, String::from_str("Connected to the haptic backend."));
                assert(r.actions@ =~= seq![BackendAction::StartScanning]);
                assert(sans_logs(r.updates@) =~= seq![UpdateFromAsyncTasks::ButtplugConnected]);
            },
            Err(m) => {
                self.state = SessionState::Uninitialized;
                let ghost gm = m;
                push_report(&mut r.updates, UpdateFromAsyncTasks::ButtplugError(m));
                push_report(&mut r.updates, UpdateFromAsyncTasks::ButtplugDisconnected);
                assert(sans_logs(r.updates@) =~= seq![
                    UpdateFromAsyncTasks::ButtplugError(gm),
                    UpdateFromAsyncTasks::ButtplugDisconnected,
                ]);
            },
        }
        r
    }

    /// Acts on the outcome of a request to start scanning.
    pub fn scan_finished(&mut self, outcome: Result<(), String>) -> (r: SessionStep)
        requires
            old(self).wf(),
        ensures
            final(self).wf(),
            Self::scan_outcome_step(*old(self), *final(self), r, outcome),
    {
        let mut r = Self::empty_step();
        assert(sans_logs(r.updates@) =~= Seq::empty());
        match outcome {
            Ok(_) => {
                push_log(&mut r.updates, String::from_str("Scanning for devices started."));
            },
            Err(m) => {
                let ghost gm = m;
                push_report(&mut r.updates, UpdateFromAsyncTasks::ButtplugError(m));
                assert(sans_logs(r.updates@) =~= seq![UpdateFromAsyncTasks::ButtplugError(gm)]);
            },
        }
        r
    }

    /// Acts on one event of the backend's event stream. Events that arrive while
    /// no session is open belong to a session already torn down and are ignored.
    pub fn handle_backend_event(&mut self, ev: BackendEvent<H>) -> (r: SessionStep)
        requires
            old(self).wf(),
        ensures
            final(self).wf(),
            Self::event_step(*old(self), *final(self), r, ev),
    {
        let ghost g_ev = ev;
        let ghost reg = self.registry@;
        let mut r = Self::empty_step();
        assert(sans_logs(r.updates@) =~= Seq::empty());
        match self.state {
            SessionState::Connected => {},
            _ => {
                push_log(&mut r.updates, String::from_str("Backend event outside a session ignored."));
                return r;
            },
        }
        proof {
            lemma_event_keeps_indices_unique(reg, g_ev);
        }
        match ev {
            BackendEvent::DeviceAdded(e) => {
                match self.find_device(e.index) {
                    Some(_) => {
                        push_log(&mut r.updates, log_text("Device already known: ", e.name.as_str()));
                    },
                    None => {
                        let found = ClonableButtplugClientDevice { index: e.index, name: e.name.clone() };
                        let ghost ge = e;
                        let mut entry = e;
                        entry.pending_stop_request = None;
                        self.registry.push(entry);
                        assert(self.registry@ =~= reg.push(with_pending_stop(ge, None)));
                        push_report(&mut r.updates, UpdateFromAsyncTasks::ButtplugDeviceFound(found));
                        assert(sans_logs(r.updates@) =~= seq![UpdateFromAsyncTasks::ButtplugDeviceFound(found)]);
                    },
                }
            },
            BackendEvent::DeviceRemoved(i) => {
                match self.find_device(i) {
                    Some(p) => {
                        let lost = self.registry.remove(p);
                        assert(self.registry@ =~= reg.remove(p as int));
                        let summary = ClonableButtplugClientDevice { index: lost.index, name: lost.name };
                        push_report(&mut r.updates, UpdateFromAsyncTasks::ButtplugDeviceLost(summary));
                        assert(sans_logs(r.updates@) =~= seq![UpdateFromAsyncTasks::ButtplugDeviceLost(summary)]);
                    },
                    None => {},
                }
            },
            BackendEvent::StreamError { message, connector_lost } => {
                let ghost gm = message;
                push_report(&mut r.updates, UpdateFromAsyncTasks::ButtplugError(message));
                if connector_lost {
                    self.state = SessionState::Uninitialized;
                    self.registry.clear();
                    assert(self.registry@ =~= Seq::empty());
                    push_report(&mut r.updates, UpdateFromAsyncTasks::ButtplugDisconnected);
                    assert(sans_logs(r.updates@) =~= seq![
                        UpdateFromAsyncTasks::ButtplugError(gm),
                        UpdateFromAsyncTasks::ButtplugDisconnected,
                    ]);
                } else {
                    assert(sans_logs(r.updates@) =~= seq![UpdateFromAsyncTasks::ButtplugError(gm)]);
                }
            },
            BackendEvent::ServerDisconnect => {
                self.end_session(&mut r, "The haptic backend closed the session.");
            },
            BackendEvent::PingTimeout => {
                self.end_session(&mut r, "The haptic backend stopped answering pings.");
            },
            BackendEvent::StreamEnded => {
                self.end_session(&mut r, "The haptic backend's event stream ended.");
            },
        }
        r
    }

    fn end_session(&mut self, r: &mut SessionStep, reason: &str)
        requires
            old(r).actions@.len() == 0,
            sans_logs(old(r).updates@).len() == 0,
        ensures
            final(self).state is Uninitialized,
            final(self).registry@ == Seq::<DeviceEntry<H>>::empty(),
            final(self).next_request == old(self).next_request,
            final(r).actions@.len() == 0,
            sans_logs(final(r).updates@) == seq![UpdateFromAsyncTasks::ButtplugDisconnected],
    {
        self.state = SessionState::Uninitialized;
        self.registry.clear();
        assert(self.registry@ =~= Seq::empty());
        assert(sans_logs(r.updates@) =~= Seq::empty());
        push_report(&mut r.updates, UpdateFromAsyncTasks::ButtplugDisconnected);
        push_log(&mut r.updates, String::from_str(reason));
        assert(sans_logs(r.updates@) =~= seq![UpdateFromAsyncTasks::ButtplugDisconnected]);
    }

    /// Acts on an expired stop timer: the device is stopped only if that timer's
    /// request is still the one due for it.
    pub fn stop_timer_expired(&mut self, device_index: u32, request: u64) -> (r: SessionStep)
        requires
            old(self).wf(),
        ensures
            final(self).wf(),
            Self::timer_step(*old(self), *final(self), r, device_index, request),
    {
        let mut r = Self::empty_step();
        match self.state {
            SessionState::Connected => {},
            _ => {
                return r;
            },
        }
        match self.find_device(device_index) {
            Some(p) => {
                if self.registry[p].pending_stop_request == Some(request) {
                    self.set_pending_stop(p, None);
                    r.actions.push(BackendAction::StopDevice(device_index));
                    assert(r.actions@ =~= seq![BackendAction::StopDevice(device_index)]);
                }
            },
            None => {},
        }
        r
    }
} // impl

} // verus!
