//! The coordinator: the application state that the user interface shows, and
//! how each report from the workers changes it.

use vstd::prelude::*;
use crate::buttplug_connector::{
    device_position, event_reports, events_reports, has_device, lemma_discovery_keeps_indices_unique,
    registry_after_event, registry_after_events, unique_indices, DeviceEntry, BackendEvent,
};
use crate::configuration_manager::{
    same_settings, ApplicationSettings, DeviceAction, DeviceActionType, EventActionSetting,
};
use crate::game_event_processor::{process_war_thunder_data, triggered_actions, GameStateSnapshot};
use crate::message_passing::{
    try_take_update, CommandRouter, UPDATE_QUEUE_CAPACITY, log_text, ClonableButtplugClientDevice, CommandToAsyncTasks, UpdateFromAsyncTasks,
};
use crate::war_thunder_connector::WarThunderIndicators;
use tokio::sync::mpsc::Receiver;

verus! {

/// The log keeps this many lines, newest first.
pub const MAX_LOG_MESSAGES: usize = 100;

pub open spec fn has_listed(devs: Seq<ClonableButtplugClientDevice>, i: u32) -> bool {
    exists|p: int| 0 <= p < devs.len() && (#[trigger] devs[p]).index == i
}

pub open spec fn listed_position(devs: Seq<ClonableButtplugClientDevice>, i: u32) -> int {
    choose|p: int| 0 <= p < devs.len() && (#[trigger] devs[p]).index == i
}

pub open spec fn listed_unique(devs: Seq<ClonableButtplugClientDevice>) -> bool {
    forall|p: int, q: int|
        0 <= p < devs.len() && 0 <= q < devs.len() && p != q ==> (#[trigger] devs[p]).index
            != (#[trigger] devs[q]).index
}

/// The device list after one report.
pub open spec fn listed_after(
    devs: Seq<ClonableButtplugClientDevice>,
    u: UpdateFromAsyncTasks,
) -> Seq<ClonableButtplugClientDevice> {
    match u {
        UpdateFromAsyncTasks::ButtplugDisconnected => Seq::empty(),
        UpdateFromAsyncTasks::ButtplugDeviceFound(d) => if has_listed(devs, d.index) {
            devs
        } else {
            devs.push(d)
        },
        UpdateFromAsyncTasks::ButtplugDeviceLost(d) => if has_listed(devs, d.index) {
            devs.remove(listed_position(devs, d.index))
        } else {
            devs
        },
        _ => devs,
    }
}

/// The device list after a sequence of reports, in order.
pub open spec fn listed_after_all(
    devs: Seq<ClonableButtplugClientDevice>,
    us: Seq<UpdateFromAsyncTasks>,
) -> Seq<ClonableButtplugClientDevice>
    decreases us.len(),
{
    if us.len() == 0 {
        devs
    } else {
        listed_after(listed_after_all(devs, us.drop_last()), us.last())
    }
}

/// The index of the first listed device, if any.
pub open spec fn first_listed(devs: Seq<ClonableButtplugClientDevice>) -> Option<u32> {
    if devs.len() > 0 {
        Some(devs[0].index)
    } else {
        None
    }
}

/// The log after `m` is added in front, cut to its bound.
pub open spec fn log_after(log: Seq<String>, m: String) -> Seq<String> {
    let l = seq![m] + log;
    if l.len() > MAX_LOG_MESSAGES {
        l.take(MAX_LOG_MESSAGES as int)
    } else {
        l
    }
}

/// The command that performs `a` on the device with backend index `target`.
pub open spec fn command_for(a: DeviceAction, target: u32) -> CommandToAsyncTasks {
    match a.action_type {
        DeviceActionType::Vibrate => CommandToAsyncTasks::VibrateDevice {
            device_index: target,
            speed_permille: a.intensity_permille,
            duration_milliseconds: a.duration_milliseconds,
        },
        DeviceActionType::Stop => CommandToAsyncTasks::StopDevice(target),
    }
}

pub open spec fn commands_for(actions: Seq<DeviceAction>, target: u32) -> Seq<CommandToAsyncTasks> {
    actions.map_values(|a: DeviceAction| command_for(a, target))
}

/// The coordinator's state.
#[derive(Debug)]
pub struct WarThunderHapticsApplication {
    pub settings: ApplicationSettings,
    pub current_wt_indicators: Option<WarThunderIndicators>,
    pub game_state_snapshot: GameStateSnapshot,
    /// The devices the session manager reported, in the order it reported them.
    pub buttplug_devices: Vec<ClonableButtplugClientDevice>,
    /// The backend index of the device that game events act on.
    pub selected_device_index: Option<u32>,
    pub is_buttplug_connected: bool,
    pub is_war_thunder_connected: bool,
    /// Newest first.
    pub log_messages: Vec<String>,
    pub is_processing_enabled: bool,
}

proof fn lemma_push_keeps_listed_unique(devs: Seq<ClonableButtplugClientDevice>, d: ClonableButtplugClientDevice)
    requires
        listed_unique(devs),
        !has_listed(devs, d.index),
    ensures
        listed_unique(devs.push(d)),
        forall|i: u32| has_listed(devs, i) ==> has_listed(devs.push(d), i),
{
    let r = devs.push(d);
    assert forall|p: int, q: int|
        0 <= p < r.len() && 0 <= q < r.len() && p != q implies (#[trigger] r[p]).index
            != (#[trigger] r[q]).index by {
        if p == devs.len() {
            assert(devs[q] == r[q]);
        } else if q == devs.len() {
            assert(devs[p] == r[p]);
        } else {
            assert(devs[p] == r[p] && devs[q] == r[q]);
        }
    }
    assert forall|i: u32| has_listed(devs, i) implies has_listed(devs.push(d), i) by {
        let p = listed_position(devs, i);
        assert(r[p] == devs[p]);
    }
}

proof fn lemma_remove_keeps_listed_unique(devs: Seq<ClonableButtplugClientDevice>, k: int)
    requires
        listed_unique(devs),
        0 <= k < devs.len(),
    ensures
        listed_unique(devs.remove(k)),
{
    devs.remove_ensures(k);
    let r = devs.remove(k);
    assert forall|p: int, q: int|
        0 <= p < r.len() && 0 <= q < r.len() && p != q implies (#[trigger] r[p]).index
            != (#[trigger] r[q]).index by {
        let pp = if p < k { p } else { p + 1 };
        let qq = if q < k { q } else { q + 1 };
        assert(r[p] == devs[pp] && r[q] == devs[qq]);
    }
}

/// The commands that perform `actions`, in order, on the device `target`.
pub fn commands_for_actions(actions: &Vec<DeviceAction>, target: u32) -> (r: Vec<CommandToAsyncTasks>)
    ensures
        r@ == commands_for(actions@, target),
{
    let mut commands: Vec<CommandToAsyncTasks> = Vec::new();
    let mut i: usize = 0;
    while i < actions.len()
        invariant
            i <= actions@.len(),
            commands@ == commands_for(actions@.subrange(0, i as int), target),
        decreases actions@.len() - i,
    {
        let a = actions[i];
        let c = match a.action_type {
            DeviceActionType::Vibrate => CommandToAsyncTasks::VibrateDevice {
                device_index: target,
                speed_permille: a.intensity_permille,
                duration_milliseconds: a.duration_milliseconds,
            },
            DeviceActionType::Stop => CommandToAsyncTasks::StopDevice(target),
        };
        commands.push(c);
        assert(commands_for(actions@.subrange(0, i + 1), target) =~= commands_for(
            actions@.subrange(0, i as int),
            target,
        ).push(command_for(a, target)));
        i = i + 1;
    }
    assert(actions@.subrange(0, actions@.len() as int) =~= actions@);
    commands
}

/// The backend indices of a session registry, in registry order.
pub open spec fn registry_indices<H>(reg: Seq<DeviceEntry<H>>) -> Seq<u32> {
    reg.map_values(|e: DeviceEntry<H>| e.index)
}

/// The backend indices of a device list, in list order.
pub open spec fn listed_indices(devs: Seq<ClonableButtplugClientDevice>) -> Seq<u32> {
    devs.map_values(|d: ClonableButtplugClientDevice| d.index)
}

proof fn lemma_listed_after_all_concat(
    devs: Seq<ClonableButtplugClientDevice>,
    a: Seq<UpdateFromAsyncTasks>,
    b: Seq<UpdateFromAsyncTasks>,
)
    ensures
        listed_after_all(devs, a + b) == listed_after_all(listed_after_all(devs, a), b),
    decreases b.len(),
{
    if b.len() == 0 {
        assert(a + b =~= a);
    } else {
        assert((a + b).drop_last() =~= a + b.drop_last());
        assert((a + b).last() == b.last());
        lemma_listed_after_all_concat(devs, a, b.drop_last());
    }
}

proof fn lemma_listed_after_one(devs: Seq<ClonableButtplugClientDevice>, u: UpdateFromAsyncTasks)
    ensures
        listed_after_all(devs, seq![u]) == listed_after(devs, u),
{
    assert(seq![u].drop_last() =~= Seq::<UpdateFromAsyncTasks>::empty());
    assert(listed_after_all(devs, Seq::<UpdateFromAsyncTasks>::empty()) == devs);
    assert(seq![u].last() == u);
}

proof fn lemma_listed_after_two(
    devs: Seq<ClonableButtplugClientDevice>,
    u: UpdateFromAsyncTasks,
    v: UpdateFromAsyncTasks,
)
    ensures
        listed_after_all(devs, seq![u, v]) == listed_after(listed_after(devs, u), v),
{
    assert(seq![u, v].drop_last() =~= seq![u]);
    lemma_listed_after_one(devs, u);
}

proof fn lemma_event_mirrored<H>(
    reg: Seq<DeviceEntry<H>>,
    devs: Seq<ClonableButtplugClientDevice>,
    ev: BackendEvent<H>,
)
    requires
        unique_indices(reg),
        registry_indices(reg) == listed_indices(devs),
    ensures
        registry_indices(registry_after_event(reg, ev)) == listed_indices(
            listed_after_all(devs, event_reports(reg, ev)),
        ),
{
    assert(reg.len() == registry_indices(reg).len());
    assert(devs.len() == listed_indices(devs).len());
    assert(reg.len() == devs.len());
    assert forall|k: int| 0 <= k < reg.len() implies #[trigger] reg[k].index == devs[k].index by {
        assert(registry_indices(reg)[k] == reg[k].index);
        assert(listed_indices(devs)[k] == devs[k].index);
    }
    assert forall|i: u32| has_device(reg, i) <==> has_listed(devs, i) by {
        if has_device(reg, i) {
            let p = device_position(reg, i);
            assert(devs[p].index == i);
        }
        if has_listed(devs, i) {
            let p = listed_position(devs, i);
            assert(reg[p].index == i);
        }
    }
    let empty = Seq::<UpdateFromAsyncTasks>::empty();
    assert(listed_after_all(devs, empty) == devs);
    match ev {
        BackendEvent::DeviceAdded(e) => {
            if !has_device(reg, e.index) {
                let d = ClonableButtplugClientDevice { index: e.index, name: e.name };
                lemma_listed_after_one(devs, UpdateFromAsyncTasks::ButtplugDeviceFound(d));
                assert(registry_indices(reg.push(DeviceEntry { pending_stop_request: None, ..e }))
                    =~= listed_indices(devs.push(d)));
            }
        },
        BackendEvent::DeviceRemoved(i) => {
            if has_device(reg, i) {
                let p = device_position(reg, i);
                let q = listed_position(devs, i);
                assert(devs[q].index == i);
                assert(reg[q].index == i);
                if p != q {
                    assert(reg[p].index != reg[q].index);
                }
                let d = ClonableButtplugClientDevice { index: reg[p].index, name: reg[p].name };
                lemma_listed_after_one(devs, UpdateFromAsyncTasks::ButtplugDeviceLost(d));
                reg.remove_ensures(p);
                devs.remove_ensures(p);
                assert(registry_indices(reg.remove(p)) =~= listed_indices(devs.remove(p)));
            }
        },
        BackendEvent::StreamError { message, connector_lost } => {
            if connector_lost {
                lemma_listed_after_two(
                    devs,
                    UpdateFromAsyncTasks::ButtplugError(message),
                    UpdateFromAsyncTasks::ButtplugDisconnected,
                );
                assert(registry_indices(Seq::<DeviceEntry<H>>::empty()) =~= listed_indices(
                    Seq::empty(),
                ));
            } else {
                lemma_listed_after_one(devs, UpdateFromAsyncTasks::ButtplugError(message));
            }
        },
        _ => {
            lemma_listed_after_one(devs, UpdateFromAsyncTasks::ButtplugDisconnected);
            assert(registry_indices(Seq::<DeviceEntry<H>>::empty()) =~= listed_indices(
                Seq::empty(),
            ));
        },
    }
}

/// The coordinator's device list mirrors the session's registry: started from
/// lists with the same backend indices, and given every report that the session
/// makes for a sequence of backend events, it lists the same backend indices in
/// the same order as the registry.
pub proof fn lemma_device_lists_agree<H>(
    reg: Seq<DeviceEntry<H>>,
    devs: Seq<ClonableButtplugClientDevice>,
    evs: Seq<BackendEvent<H>>,
)
    requires
        unique_indices(reg),
        registry_indices(reg) == listed_indices(devs),
    ensures
        registry_indices(registry_after_events(reg, evs)) == listed_indices(
            listed_after_all(devs, events_reports(reg, evs)),
        ),
    decreases evs.len(),
{
    if evs.len() > 0 {
        let prev = evs.drop_last();
        lemma_device_lists_agree(reg, devs, prev);
        lemma_discovery_keeps_indices_unique(reg, prev);
        let r1 = registry_after_events(reg, prev);
        let d1 = listed_after_all(devs, events_reports(reg, prev));
        lemma_event_mirrored(r1, d1, evs.last());
        lemma_listed_after_all_concat(devs, events_reports(reg, prev), event_reports(r1, evs.last()));
    }
}

/// Telemetry lost, then a snapshot, then telemetry back: the coordinator shows
/// the game reachable with that snapshot.
pub proof fn lemma_reconnection_shows_snapshot(
    a: WarThunderHapticsApplication,
    b: WarThunderHapticsApplication,
    c: WarThunderHapticsApplication,
    d: WarThunderHapticsApplication,
    x: WarThunderIndicators,
)
    requires
        WarThunderHapticsApplication::update_applied(
            a,
            UpdateFromAsyncTasks::WarThunderConnectionStatus(false),
            b,
        ),
        WarThunderHapticsApplication::update_applied(
            b,
            UpdateFromAsyncTasks::WarThunderIndicatorsUpdate(x),
            c,
        ),
        WarThunderHapticsApplication::update_applied(
            c,
            UpdateFromAsyncTasks::WarThunderConnectionStatus(true),
            d,
        ),
    ensures
        !b.is_war_thunder_connected,
        b.current_wt_indicators is None,
        d.is_war_thunder_connected,
        d.current_wt_indicators == Some(x),
{
}

/// A second report of the backend's disconnection changes nothing that the
/// first did not: no connection, no device, no selection.
pub proof fn lemma_disconnection_idempotent(
    a: WarThunderHapticsApplication,
    b: WarThunderHapticsApplication,
    c: WarThunderHapticsApplication,
)
    requires
        WarThunderHapticsApplication::update_applied(a, UpdateFromAsyncTasks::ButtplugDisconnected, b),
        WarThunderHapticsApplication::update_applied(b, UpdateFromAsyncTasks::ButtplugDisconnected, c),
    ensures
        !b.is_buttplug_connected && b.buttplug_devices@.len() == 0 && b.selected_device_index is None,
        c.is_buttplug_connected == b.is_buttplug_connected,
        c.buttplug_devices@ == b.buttplug_devices@,
        c.selected_device_index == b.selected_device_index,
        c.settings == b.settings,
        c.current_wt_indicators == b.current_wt_indicators,
        c.game_state_snapshot == b.game_state_snapshot,
{
    assert(b.buttplug_devices@ =~= Seq::empty());
}

impl WarThunderHapticsApplication {
    /// Listed indices are unique, a selection names a listed device, and the log
    /// keeps to its bound.
    pub open spec fn wf(&self) -> bool {
        &&& listed_unique(self.buttplug_devices@)
        &&& (self.selected_device_index matches Some(s) ==> has_listed(self.buttplug_devices@, s))
        &&& self.log_messages@.len() <= MAX_LOG_MESSAGES
    }

    /// The device that game events act on: the selected one, else the first listed.
    pub open spec fn action_target(self) -> Option<u32> {
        match self.selected_device_index {
            Some(s) => Some(s),
            None => first_listed(self.buttplug_devices@),
        }
    }

    pub open spec fn settings_after(self, u: UpdateFromAsyncTasks) -> ApplicationSettings {
        match u {
            UpdateFromAsyncTasks::ApplicationSettingsLoaded(s) => s,
            _ => self.settings,
        }
    }

    pub open spec fn indicators_after(self, u: UpdateFromAsyncTasks) -> Option<WarThunderIndicators> {
        match u {
            UpdateFromAsyncTasks::WarThunderIndicatorsUpdate(ind) => Some(ind),
            UpdateFromAsyncTasks::WarThunderConnectionStatus(false) => None,
            _ => self.current_wt_indicators,
        }
    }

    pub open spec fn snapshot_after(self, u: UpdateFromAsyncTasks) -> GameStateSnapshot {
        match u {
            UpdateFromAsyncTasks::WarThunderIndicatorsUpdate(ind) => if self.is_processing_enabled {
                GameStateSnapshot { last_health_milli_percent: ind.health_milli_percent }
            } else {
                self.game_state_snapshot
            },
            _ => self.game_state_snapshot,
        }
    }

    pub open spec fn game_connected_after(self, u: UpdateFromAsyncTasks) -> bool {
        match u {
            UpdateFromAsyncTasks::WarThunderConnectionStatus(c) => c,
            _ => self.is_war_thunder_connected,
        }
    }

    pub open spec fn backend_connected_after(self, u: UpdateFromAsyncTasks) -> bool {
        match u {
            UpdateFromAsyncTasks::ButtplugConnected => true,
            UpdateFromAsyncTasks::ButtplugDisconnected => false,
            _ => self.is_buttplug_connected,
        }
    }

    pub open spec fn devices_after(self, u: UpdateFromAsyncTasks) -> Seq<ClonableButtplugClientDevice> {
        listed_after(self.buttplug_devices@, u)
    }

    /// A first device is selected when none is; a selection whose device is
    /// lost moves to the first listed device.
    pub open spec fn selection_after(self, u: UpdateFromAsyncTasks) -> Option<u32> {
        let devs = self.devices_after(u);
        match u {
            UpdateFromAsyncTasks::ButtplugDisconnected => None,
            UpdateFromAsyncTasks::ButtplugDeviceFound(_) => match self.selected_device_index {
                Some(s) => Some(s),
                None => first_listed(devs),
            },
            UpdateFromAsyncTasks::ButtplugDeviceLost(_) => match self.selected_device_index {
                Some(s) => if has_listed(devs, s) {
                    Some(s)
                } else {
                    first_listed(devs)
                },
                None => None,
            },
            _ => self.selected_device_index,
        }
    }

    /// The commands a report leads to: with processing on, a snapshot's triggered
    /// actions, each sent to the action target; none if no device is known.
    pub open spec fn commands_after(self, u: UpdateFromAsyncTasks) -> Seq<CommandToAsyncTasks> {
        match u {
            UpdateFromAsyncTasks::WarThunderIndicatorsUpdate(ind) => if self.is_processing_enabled {
                match self.action_target() {
                    Some(t) => commands_for(
                        triggered_actions(
                            self.settings.event_actions@,
                            self.game_state_snapshot.last_health_milli_percent,
                            ind.health_milli_percent,
                        ),
                        t,
                    ),
                    None => Seq::empty(),
                }
            } else {
                Seq::empty()
            },
            _ => Seq::empty(),
        }
    }

    /// How one report changes the state: every field as the `..._after` functions
    /// say, the log bound kept, a relayed log line or backend error in front of
    /// the log.
    pub open spec fn update_applied(pre: Self, u: UpdateFromAsyncTasks, post: Self) -> bool {
        &&& post.wf()
        &&& post.settings == pre.settings_after(u)
        &&& post.current_wt_indicators == pre.indicators_after(u)
        &&& post.game_state_snapshot == pre.snapshot_after(u)
        &&& post.buttplug_devices@ == pre.devices_after(u)
        &&& post.selected_device_index == pre.selection_after(u)
        &&& post.is_buttplug_connected == pre.backend_connected_after(u)
        &&& post.is_war_thunder_connected == pre.game_connected_after(u)
        &&& post.is_processing_enabled == pre.is_processing_enabled
        &&& (u matches UpdateFromAsyncTasks::LogMessage(m) ==> post.log_messages@ == log_after(
            pre.log_messages@,
            m,
        ))
        &&& (u matches UpdateFromAsyncTasks::ButtplugError(e) ==> {
            &&& post.log_messages@.len() > 0
            &&& post.log_messages@[0]@ == "Haptic backend error: "@ + e@
        })
    }

    /// `states` are the states passed through while the reports `us` are applied
    /// one after another, in order: each report takes one state to the next.
    pub open spec fn applied_in_order(states: Seq<Self>, us: Seq<UpdateFromAsyncTasks>) -> bool {
        &&& states.len() == us.len() + 1
        &&& forall|i: int|
            0 <= i < us.len() ==> Self::update_applied(states[i], #[trigger] us[i], states[i + 1])
    }

    /// The state at startup, with the given settings, and the command that
    /// pushes those settings to the workers.
    pub fn new(settings: ApplicationSettings) -> (r: (Self, CommandToAsyncTasks))
        ensures
            r.0.wf(),
            r.0.settings == settings,
            r.0.current_wt_indicators is None,
            r.0.game_state_snapshot.last_health_milli_percent is None,
            r.0.buttplug_devices@.len() == 0,
            r.0.selected_device_index is None,
            !r.0.is_buttplug_connected,
            !r.0.is_war_thunder_connected,
            r.0.log_messages@.len() == 1,
            !r.0.is_processing_enabled,
            r.1 matches CommandToAsyncTasks::UpdateApplicationSettings(s) && same_settings(s, settings),
    {
        let pushed = settings.clone();
        let mut log_messages: Vec<String> = Vec::new();
        log_messages.push(String::from_str("Application started."));
        let app = WarThunderHapticsApplication {
            settings,
            current_wt_indicators: None,
            game_state_snapshot: GameStateSnapshot::default(),
            buttplug_devices: Vec::new(),
            selected_device_index: None,
            is_buttplug_connected: false,
            is_war_thunder_connected: false,
            log_messages,
            is_processing_enabled: false,
        };
        (app, CommandToAsyncTasks::UpdateApplicationSettings(pushed))
    }

    /// Turns rule processing on or off; returns the command that tells the
    /// poller to resume or pause.
    pub fn set_processing_enabled(&mut self, enabled: bool) -> (r: CommandToAsyncTasks)
        requires
            old(self).wf(),
        ensures
            final(self).wf(),
            final(self).is_processing_enabled == enabled,
            final(self).settings == old(self).settings,
            final(self).buttplug_devices == old(self).buttplug_devices,
            final(self).selected_device_index == old(self).selected_device_index,
            r == if enabled {
                CommandToAsyncTasks::StartProcessing
            } else {
                CommandToAsyncTasks::StopProcessing
            },
    {
        self.is_processing_enabled = enabled;
        if enabled {
            self.add_log_message(String::from_str("Game event processing enabled."));
            CommandToAsyncTasks::StartProcessing
        } else {
            self.add_log_message(String::from_str("Game event processing disabled."));
            CommandToAsyncTasks::StopProcessing
        }
    }

    /// Selects the listed device with backend index `index`; an unlisted one
    /// leaves the selection as it is. Returns whether it was selected.
    pub fn select_device(&mut self, index: u32) -> (r: bool)
        requires
            old(self).wf(),
        ensures
            final(self).wf(),
            r == has_listed(old(self).buttplug_devices@, index),
            final(self).selected_device_index == if r {
                Some(index)
            } else {
                old(self).selected_device_index
            },
            final(self).buttplug_devices == old(self).buttplug_devices,
    {
        match self.find_listed(index) {
            Some(_) => {
                self.selected_device_index = Some(index);
                true
            },
            None => false,
        }
    }

    /// A test vibration of the selected device at half strength, until stopped.
    pub fn test_vibration_command(&self) -> (r: Option<CommandToAsyncTasks>)
        ensures
            r == match self.selected_device_index {
                Some(s) => Some(
                    CommandToAsyncTasks::VibrateDevice {
                        device_index: s,
                        speed_permille: 500,
                        duration_milliseconds: 0,
                    },
                ),
                None => None,
            },
    {
        match self.selected_device_index {
            Some(s) => Some(
                CommandToAsyncTasks::VibrateDevice {
                    device_index: s,
                    speed_permille: 500,
                    duration_milliseconds: 0,
                },
            ),
            None => None,
        }
    }

    /// A stop of the selected device.
    pub fn stop_selected_command(&self) -> (r: Option<CommandToAsyncTasks>)
        ensures
            r == match self.selected_device_index {
                Some(s) => Some(CommandToAsyncTasks::StopDevice(s)),
                None => None,
            },
    {
        match self.selected_device_index {
            Some(s) => Some(CommandToAsyncTasks::StopDevice(s)),
            None => None,
        }
    }

    /// Replaces the settings; returns the command that pushes them to the workers.
    pub fn adopt_settings(&mut self, settings: ApplicationSettings) -> (r: CommandToAsyncTasks)
        requires
            old(self).wf(),
        ensures
            final(self).wf(),
            final(self).settings == settings,
            final(self).buttplug_devices == old(self).buttplug_devices,
            final(self).selected_device_index == old(self).selected_device_index,
            final(self).is_processing_enabled == old(self).is_processing_enabled,
            r matches CommandToAsyncTasks::UpdateApplicationSettings(s) && same_settings(s, settings),
    {
        let pushed = settings.clone();
        self.settings = settings;
        self.add_log_message(String::from_str("Settings applied."));
        CommandToAsyncTasks::UpdateApplicationSettings(pushed)
    }

    /// Appends a rule; returns the command that pushes the new settings.
    pub fn add_event_action(&mut self, rule: EventActionSetting) -> (r: CommandToAsyncTasks)
        requires
            old(self).wf(),
        ensures
            final(self).wf(),
            final(self).settings.event_actions@ == old(self).settings.event_actions@.push(rule),
            final(self).settings.application_name == old(self).settings.application_name,
            final(self).settings.polling_interval_milliseconds
                == old(self).settings.polling_interval_milliseconds,
            final(self).settings.buttplug_server_address
                == old(self).settings.buttplug_server_address,
            r matches CommandToAsyncTasks::UpdateApplicationSettings(s) && same_settings(
                s,
                final(self).settings,
            ),
    {
        self.settings.event_actions.push(rule);
        self.add_log_message(String::from_str("Rule added; save the configuration to keep it."));
        CommandToAsyncTasks::UpdateApplicationSettings(self.settings.clone())
    }

    /// Removes the rule at `position`, if there is one; returns the command that
    /// pushes the new settings.
    pub fn remove_event_action(&mut self, position: usize) -> (r: Option<CommandToAsyncTasks>)
        requires
            old(self).wf(),
        ensures
            final(self).wf(),
            position < old(self).settings.event_actions@.len() ==> {
                &&& final(self).settings.event_actions@ == old(self).settings.event_actions@.remove(
                    position as int,
                )
                &&& r matches Some(CommandToAsyncTasks::UpdateApplicationSettings(s)) && same_settings(
                    s,
                    final(self).settings,
                )
            },
            position >= old(self).settings.event_actions@.len() ==> {
                &&& final(self).settings.event_actions@ == old(self).settings.event_actions@
                &&& r is None
            },
            final(self).settings.application_name == old(self).settings.application_name,
            final(self).settings.polling_interval_milliseconds
                == old(self).settings.polling_interval_milliseconds,
            final(self).settings.buttplug_server_address
                == old(self).settings.buttplug_server_address,
    {
        if position < self.settings.event_actions.len() {
            self.settings.event_actions.remove(position);
            self.add_log_message(String::from_str("Rule removed; save the configuration to keep it."));
            Some(CommandToAsyncTasks::UpdateApplicationSettings(self.settings.clone()))
        } else {
            None
        }
    }

    /// Adds a line in front of the log, dropping the oldest beyond the bound.
    pub fn add_log_message(&mut self, message: String)
        requires
            old(self).log_messages@.len() <= MAX_LOG_MESSAGES,
        ensures
            final(self).log_messages@ == log_after(old(self).log_messages@, message),
            final(self).settings == old(self).settings,
            final(self).current_wt_indicators == old(self).current_wt_indicators,
            final(self).game_state_snapshot == old(self).game_state_snapshot,
            final(self).buttplug_devices == old(self).buttplug_devices,
            final(self).selected_device_index == old(self).selected_device_index,
            final(self).is_buttplug_connected == old(self).is_buttplug_connected,
            final(self).is_war_thunder_connected == old(self).is_war_thunder_connected,
            final(self).is_processing_enabled == old(self).is_processing_enabled,
    {
        let ghost log = self.log_messages@;
        let ghost m = message;
        self.log_messages.insert(0, message);
        assert(self.log_messages@ =~= seq![m] + log);
        if self.log_messages.len() > MAX_LOG_MESSAGES {
            self.log_messages.pop();
            assert(self.log_messages@ =~= (seq![m] + log).take(MAX_LOG_MESSAGES as int));
        }
    }

    /// The position of the listed device with backend index `i`.
    pub fn find_listed(&self, i: u32) -> (r: Option<usize>)
        requires
            listed_unique(self.buttplug_devices@),
        ensures
            match r {
                Some(p) => {
                    &&& has_listed(self.buttplug_devices@, i)
                    &&& p == listed_position(self.buttplug_devices@, i)
                    &&& p < self.buttplug_devices@.len()
                    &&& self.buttplug_devices@[p as int].index == i
                },
                None => !has_listed(self.buttplug_devices@, i),
            },
    {
        let mut k: usize = 0;
        while k < self.buttplug_devices.len()
            invariant
                listed_unique(self.buttplug_devices@),
                k <= self.buttplug_devices@.len(),
                forall|j: int| 0 <= j < k ==> (#[trigger] self.buttplug_devices@[j]).index != i,
            decreases self.buttplug_devices@.len() - k,
        {
            if self.buttplug_devices[k].index == i {
                proof {
                    let devs = self.buttplug_devices@;
                    assert(has_listed(devs, i));
                    let q = listed_position(devs, i);
                    assert(devs[q].index == i);
                    if q != k as int {
                        assert(devs[q].index != devs[k as int].index);
                    }
                }
                return Some(k);
            }
            k = k + 1;
        }
        None
    }

    fn first_listed_index(&self) -> (r: Option<u32>)
        ensures
            r == first_listed(self.buttplug_devices@),
    {
        if self.buttplug_devices.len() > 0 {
            Some(self.buttplug_devices[0].index)
        } else {
            None
        }
    }

    /// The device that game events act on.
    pub fn current_action_target(&self) -> (r: Option<u32>)
        ensures
            r == self.action_target(),
    {
        match self.selected_device_index {
            Some(s) => Some(s),
            None => self.first_listed_index(),
        }
    }

    /// Once per user-interface tick: takes the queued updates in arrival order,
    /// at most a queue's capacity of them so that a busy producer cannot stall
    /// the tick, applies each, and sends the commands each leads to. Returns how
    /// many were applied.
    pub fn handle_incoming_updates(
        &mut self,
        updates: &mut Receiver<UpdateFromAsyncTasks>,
        router: &CommandRouter,
    ) -> (r: usize)
        requires
            old(self).wf(),
        ensures
            final(self).wf(),
            r <= UPDATE_QUEUE_CAPACITY,
            exists|states: Seq<Self>, us: Seq<UpdateFromAsyncTasks>|
                {
                    &&& us.len() == r
                    &&& states[0] == *old(self)
                    &&& states.last() == *final(self)
                    &&& #[trigger] Self::applied_in_order(states, us)
                },
            r == 0 ==> *final(self) == *old(self),
    {
        let ghost taken: Seq<UpdateFromAsyncTasks> = Seq::empty();
        let ghost states: Seq<Self> = seq![*self];
        let mut applied: usize = 0;
        while applied < UPDATE_QUEUE_CAPACITY
            invariant
                self.wf(),
                applied <= UPDATE_QUEUE_CAPACITY,
                taken.len() == applied,
                states[0] == *old(self),
                states.last() == *self,
                Self::applied_in_order(states, taken),
            decreases UPDATE_QUEUE_CAPACITY - applied,
        {
            match try_take_update(updates) {
                Some(update) => {
                    let ghost mid = *self;
                    let ghost g_update = update;
                    let mut commands = self.apply_update(update);
                    proof {
                        let next_states = states.push(*self);
                        let next_taken = taken.push(g_update);
                        assert forall|i: int| 0 <= i < next_taken.len() implies Self::update_applied(
                            next_states[i],
                            #[trigger] next_taken[i],
                            next_states[i + 1],
                        ) by {
                            if i < taken.len() {
                                assert(next_taken[i] == taken[i]);
                                assert(next_states[i] == states[i]);
                                assert(next_states[i + 1] == states[i + 1]);
                            } else {
                                assert(next_states[i] == mid);
                            }
                        }
                        states = next_states;
                        taken = next_taken;
                    }
                    while commands.len() > 0
                        invariant
                            self.wf(),
                            applied < UPDATE_QUEUE_CAPACITY,
                            taken.len() == applied + 1,
                            states[0] == *old(self),
                            states.last() == *self,
                            Self::applied_in_order(states, taken),
                        decreases commands@.len(),
                    {
                        let cmd = commands.remove(0);
                        router.dispatch(cmd);
                    }
                    applied = applied + 1;
                },
                None => {
                    return applied;
                },
            }
        }
        applied
    }

    /// Applies one report from a worker and returns the device commands it
    /// leads to, in order.
    pub fn apply_update(&mut self, update: UpdateFromAsyncTasks) -> (r: Vec<CommandToAsyncTasks>)
        requires
            old(self).wf(),
        ensures
            final(self).wf(),
            Self::update_applied(*old(self), update, *final(self)),
            r@ == old(self).commands_after(update),
    {
        let ghost devs = self.buttplug_devices@;
        let mut commands: Vec<CommandToAsyncTasks> = Vec::new();
        match update {
            UpdateFromAsyncTasks::LogMessage(msg) => {
                self.add_log_message(msg);
            },
            UpdateFromAsyncTasks::WarThunderIndicatorsUpdate(indicators) => {
                if self.is_processing_enabled {
                    let actions = process_war_thunder_data(
                        &indicators,
                        &self.settings,
                        &mut self.game_state_snapshot,
                    );
                    match self.current_action_target() {
                        Some(t) => {
                            commands = commands_for_actions(&actions, t);
                            if commands.len() > 0 {
                                self.add_log_message(String::from_str("Game event: device commands issued."));
                            }
                        },
                        None => {},
                    }
                }
                self.current_wt_indicators = Some(indicators);
            },
            UpdateFromAsyncTasks::WarThunderConnectionStatus(is_connected) => {
                self.is_war_thunder_connected = is_connected;
                if !is_connected {
                    self.current_wt_indicators = None;
                }
            },
            UpdateFromAsyncTasks::ButtplugConnected => {
                self.is_buttplug_connected = true;
                self.add_log_message(String::from_str("Connected to the haptic backend."));
            },
            UpdateFromAsyncTasks::ButtplugDisconnected => {
                self.is_buttplug_connected = false;
                self.buttplug_devices.clear();
                self.selected_device_index = None;
                assert(self.buttplug_devices@ =~= Seq::empty());
                self.add_log_message(String::from_str("Disconnected from the haptic backend."));
            },
            UpdateFromAsyncTasks::ButtplugDeviceFound(device) => {
                match self.find_listed(device.index) {
                    Some(_) => {},
                    None => {
                        proof {
                            lemma_push_keeps_listed_unique(devs, device);
                        }
                        let text = log_text("Device found: ", device.name.as_str());
                        self.buttplug_devices.push(device);
                        self.add_log_message(text);
                    },
                }
                if self.selected_device_index.is_none() {
                    self.selected_device_index = self.first_listed_index();
                    proof {
                        if self.buttplug_devices@.len() > 0 {
                            assert(has_listed(self.buttplug_devices@, self.buttplug_devices@[0].index));
                        }
                    }
                }
            },
            UpdateFromAsyncTasks::ButtplugDeviceLost(device) => {
                match self.find_listed(device.index) {
                    Some(p) => {
                        proof {
                            lemma_remove_keeps_listed_unique(devs, p as int);
                        }
                        self.buttplug_devices.remove(p);
                    },
                    None => {},
                }
                match self.selected_device_index {
                    Some(s) => {
                        if self.find_listed(s).is_none() {
                            self.selected_device_index = self.first_listed_index();
                            proof {
                                if self.buttplug_devices@.len() > 0 {
                                    assert(has_listed(self.buttplug_devices@, self.buttplug_devices@[0].index));
                                }
                            }
                        }
                    },
                    None => {},
                }
                self.add_log_message(log_text("Device lost: ", device.name.as_str()));
            },
            UpdateFromAsyncTasks::ButtplugError(err) => {
                self.add_log_message(log_text("Haptic backend error: ", err.as_str()));
            },
            UpdateFromAsyncTasks::ApplicationSettingsLoaded(loaded) => {
                self.settings = loaded;
                self.add_log_message(String::from_str("Settings loaded."));
            },
        }
        proof {
            if !(update is WarThunderIndicatorsUpdate) {
                assert(commands@ =~= Seq::empty());
            }
        }
        commands
    }
}

} // verus!
