//! The messages exchanged between the coordinator and the two workers, and the
//! routing of each command to the worker that owns it.

use vstd::prelude::*;
use crate::configuration_manager::ApplicationSettings;
use crate::war_thunder_connector::WarThunderIndicators;
use tokio::sync::mpsc::{Receiver, Sender};

verus! {

/// Capacity of the queue of updates to the coordinator.
pub const UPDATE_QUEUE_CAPACITY: usize = 100;

/// Capacity of each worker's command queue.
pub const COMMAND_QUEUE_CAPACITY: usize = 10;

#[verifier::external_type_specification]
#[verifier::external_body]
#[verifier::reject_recursive_types(T)]
pub struct ExSender<T>(Sender<T>);

#[verifier::external_type_specification]
#[verifier::external_body]
#[verifier::reject_recursive_types(T)]
pub struct ExReceiver<T>(Receiver<T>);

/// Relies on tokio's `mpsc::Sender::try_send`: queues the command without
/// waiting if the queue has room and its receiver is alive, and drops it
/// otherwise. Whether it was queued depends on the queue's state.
#[verifier::external_body]
fn try_send_command(queue: &Sender<CommandToAsyncTasks>, cmd: CommandToAsyncTasks) -> (r: bool) {
    queue.try_send(cmd).is_ok()
}

/// Relies on tokio's `mpsc::Receiver::try_recv`: takes the oldest queued update
/// without waiting, if there is one.
#[verifier::external_body]
pub(crate) fn try_take_update(queue: &mut Receiver<UpdateFromAsyncTasks>) -> (r: Option<UpdateFromAsyncTasks>) {
    queue.try_recv().ok()
}

/// A command from the coordinator to a worker.
///
/// Devices are addressed by the index that the haptic backend assigned to them,
/// which stays stable while the device is known, never by a list position.
#[derive(Clone, Debug)]
pub enum CommandToAsyncTasks {
    StartProcessing,
    StopProcessing,
    UpdateApplicationSettings(ApplicationSettings),
    VibrateDevice { device_index: u32, speed_permille: u16, duration_milliseconds: u64 },
    StopDevice(u32),
    ScanForButtplugDevices,
    DisconnectButtplug,
}

/// What the coordinator learns of a backend device: its stable index and its name.
#[derive(Debug)]
pub struct ClonableButtplugClientDevice {
    pub index: u32,
    pub name: String,
}

impl Clone for ClonableButtplugClientDevice {
    /// The same device: equal index and name.
    fn clone(&self) -> (r: Self)
        ensures
            r == *self,
    {
        ClonableButtplugClientDevice { index: self.index, name: self.name.clone() }
    }
}

/// A report from a worker to the coordinator.
#[derive(Clone, Debug)]
pub enum UpdateFromAsyncTasks {
    LogMessage(String),
    WarThunderIndicatorsUpdate(WarThunderIndicators),
    WarThunderConnectionStatus(bool),
    ButtplugConnected,
    ButtplugDisconnected,
    ButtplugDeviceFound(ClonableButtplugClientDevice),
    ButtplugDeviceLost(ClonableButtplugClientDevice),
    ButtplugError(String),
    ApplicationSettingsLoaded(ApplicationSettings),
}

/// The reports of a sequence other than its log lines, in order.
pub open spec fn sans_logs(s: Seq<UpdateFromAsyncTasks>) -> Seq<UpdateFromAsyncTasks>
    decreases s.len(),
{
    if s.len() == 0 {
        Seq::empty()
    } else if s.last() is LogMessage {
        sans_logs(s.drop_last())
    } else {
        sans_logs(s.drop_last()).push(s.last())
    }
}

pub proof fn lemma_sans_logs_push(s: Seq<UpdateFromAsyncTasks>, u: UpdateFromAsyncTasks)
    ensures
        sans_logs(s.push(u)) == if u is LogMessage {
            sans_logs(s)
        } else {
            sans_logs(s).push(u)
        },
{
    assert(s.push(u).drop_last() =~= s);
}

/// Appends a log line; the other reports are unchanged.
pub fn push_log(updates: &mut Vec<UpdateFromAsyncTasks>, text: String)
    ensures
        sans_logs(final(updates)@) == sans_logs(old(updates)@),
        final(updates)@ == old(updates)@.push(UpdateFromAsyncTasks::LogMessage(text)),
{
    proof {
        lemma_sans_logs_push(updates@, UpdateFromAsyncTasks::LogMessage(text));
    }
    updates.push(UpdateFromAsyncTasks::LogMessage(text));
}

/// Appends a report that is not a log line.
pub fn push_report(updates: &mut Vec<UpdateFromAsyncTasks>, u: UpdateFromAsyncTasks)
    requires
        !(u is LogMessage),
    ensures
        sans_logs(final(updates)@) == sans_logs(old(updates)@).push(u),
        final(updates)@ == old(updates)@.push(u),
{
    proof {
        lemma_sans_logs_push(updates@, u);
    }
    updates.push(u);
}

/// A log line made of a fixed text and a detail.
pub fn log_text(text: &str, detail: &str) -> (r: String)
    ensures
        r@ == text@ + detail@,
{
    String::from_str(text).concat(detail)
}

/// Commands that the telemetry poller acts on.
pub open spec fn routed_to_poller(c: CommandToAsyncTasks) -> bool {
    ||| c is StartProcessing
    ||| c is StopProcessing
    ||| c is UpdateApplicationSettings
}

/// Commands that the device session manager acts on.
pub open spec fn routed_to_session(c: CommandToAsyncTasks) -> bool {
    !(c is StartProcessing || c is StopProcessing)
}

pub fn goes_to_poller(c: &CommandToAsyncTasks) -> (r: bool)
    ensures
        r == routed_to_poller(*c),
{
    match c {
        CommandToAsyncTasks::StartProcessing => true,
        CommandToAsyncTasks::StopProcessing => true,
        CommandToAsyncTasks::UpdateApplicationSettings(_) => true,
        _ => false,
    }
}

pub fn goes_to_session(c: &CommandToAsyncTasks) -> (r: bool)
    ensures
        r == routed_to_session(*c),
{
    match c {
        CommandToAsyncTasks::StartProcessing => false,
        CommandToAsyncTasks::StopProcessing => false,
        _ => true,
    }
}


/// Which worker queues accepted a command.
#[derive(Clone, Copy, Debug, PartialEq, Eq, Structural)]
pub struct Delivery {
    pub to_poller: bool,
    pub to_session: bool,
}

/// The coordinator's sending ends: one queue per worker, so that each worker
/// receives the commands it acts on and no others.
#[derive(Debug)]
pub struct CommandRouter {
    pub to_poller: Sender<CommandToAsyncTasks>,
    pub to_session: Sender<CommandToAsyncTasks>,
}

impl CommandRouter {
    pub fn new(
        to_poller: Sender<CommandToAsyncTasks>,
        to_session: Sender<CommandToAsyncTasks>,
    ) -> (r: Self)
        ensures
            r.to_poller == to_poller,
            r.to_session == to_session,
    {
        CommandRouter { to_poller, to_session }
    }

    /// Sends `cmd`, without waiting, to the queue of each worker that acts on
    /// it. A full or closed queue drops it: the state converges on later updates.
    pub fn dispatch(&self, cmd: CommandToAsyncTasks) -> (r: Delivery)
        ensures
            r.to_poller ==> routed_to_poller(cmd),
            r.to_session ==> routed_to_session(cmd),
    {
        let for_poller = goes_to_poller(&cmd);
        let for_session = goes_to_session(&cmd);
        if for_poller && for_session {
            let copy = cmd.clone();
            let to_poller = try_send_command(&self.to_poller, copy);
            let to_session = try_send_command(&self.to_session, cmd);
            Delivery { to_poller, to_session }
        } else if for_poller {
            Delivery { to_poller: try_send_command(&self.to_poller, cmd), to_session: false }
        } else if for_session {
            Delivery { to_poller: false, to_session: try_send_command(&self.to_session, cmd) }
        } else {
            Delivery { to_poller: false, to_session: false }
        }
    }
}

} // verus!
