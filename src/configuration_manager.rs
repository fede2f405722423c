//! Persisted configuration: the settings entity and the rules it carries.
//!
//! Intensities are held as whole thousandths of full strength (0 to 1000), so
//! that every value here is exact.

use vstd::prelude::*;

verus! {

/// Full strength, in thousandths.
pub const FULL_INTENSITY_PERMILLE: u16 = 1000;

/// Intensity used for an action whose stored form gives none.
pub const DEFAULT_INTENSITY_PERMILLE: u16 = 500;

/// Duration used for an action whose stored form gives none.
pub const DEFAULT_DURATION_MILLISECONDS: u64 = 500;

pub const DEFAULT_POLLING_INTERVAL_MILLISECONDS: u64 = 250;

/// What an action does to a device.
#[derive(Clone, Copy, Debug, PartialEq, Eq, Structural)]
pub enum DeviceActionType {
    Vibrate,
    Stop,
}

/// An action to perform on a device.
///
/// `duration_milliseconds == 0` means that a vibration lasts until an explicit stop.
#[derive(Clone, Copy, Debug, PartialEq, Eq, Structural)]
pub struct DeviceAction {
    pub action_type: DeviceActionType,
    pub intensity_permille: u16,
    pub duration_milliseconds: u64,
}

/// Intensity given to an action whose stored form lacks one.
pub fn default_intensity() -> (r: u16)
    ensures
        r == DEFAULT_INTENSITY_PERMILLE,
{
    DEFAULT_INTENSITY_PERMILLE
}

/// Duration given to an action whose stored form lacks one.
pub fn default_duration() -> (r: u64)
    ensures
        r == DEFAULT_DURATION_MILLISECONDS,
{
    DEFAULT_DURATION_MILLISECONDS
}

/// One rule: when its condition holds and it is enabled, its action is performed.
#[derive(Debug)]
pub struct EventActionSetting {
    pub name: String,
    pub enabled: bool,
    pub device_action: DeviceAction,
}

/// The application's durable configuration.
#[derive(Debug)]
pub struct ApplicationSettings {
    pub application_name: String,
    pub polling_interval_milliseconds: u64,
    pub buttplug_server_address: String,
    pub event_actions: Vec<EventActionSetting>,
}

impl Clone for EventActionSetting {
    fn clone(&self) -> (r: Self)
        ensures
            r == *self,
    {
        EventActionSetting {
            name: self.name.clone(),
            enabled: self.enabled,
            device_action: self.device_action,
        }
    }
}

/// Two settings values that hold the same name, interval, address and rules.
pub open spec fn same_settings(a: ApplicationSettings, b: ApplicationSettings) -> bool {
    &&& a.application_name == b.application_name
    &&& a.polling_interval_milliseconds == b.polling_interval_milliseconds
    &&& a.buttplug_server_address == b.buttplug_server_address
    &&& a.event_actions@ == b.event_actions@
}

impl Clone for ApplicationSettings {
    fn clone(&self) -> (r: Self)
        ensures
            same_settings(r, *self),
    {
        let mut event_actions: Vec<EventActionSetting> = Vec::new();
        let mut i: usize = 0;
        while i < self.event_actions.len()
            invariant
                i <= self.event_actions@.len(),
                event_actions@ == self.event_actions@.subrange(0, i as int),
            decreases self.event_actions@.len() - i,
        {
            let rule = self.event_actions[i].clone();
            event_actions.push(rule);
            assert(self.event_actions@.subrange(0, i + 1) =~= self.event_actions@.subrange(
                0,
                i as int,
            ).push(self.event_actions@[i as int]));
            i = i + 1;
        }
        assert(self.event_actions@.subrange(0, self.event_actions@.len() as int) =~= self.event_actions@);
        ApplicationSettings {
            application_name: self.application_name.clone(),
            polling_interval_milliseconds: self.polling_interval_milliseconds,
            buttplug_server_address: self.buttplug_server_address.clone(),
            event_actions,
        }
    }
}

impl Default for ApplicationSettings {
    fn default() -> (r: Self)
        ensures
            r.application_name@ == "WarThunder Haptics GUI (Default)"@,
            r.polling_interval_milliseconds == DEFAULT_POLLING_INTERVAL_MILLISECONDS,
            r.buttplug_server_address@ == "ws://127.0.0.1:12345"@,
            r.event_actions@.len() == 1,
            r.event_actions@[0].name@ == "Example: light vibration on damage"@,
            r.event_actions@[0].enabled,
            r.event_actions@[0].device_action == (DeviceAction {
                action_type: DeviceActionType::Vibrate,
                intensity_permille: 300,
                duration_milliseconds: 1000,
            }),
    {
        let rule = EventActionSetting {
            name: String::from_str("Example: light vibration on damage"),
            enabled: true,
            device_action: DeviceAction {
                action_type: DeviceActionType::Vibrate,
                intensity_permille: 300,
                duration_milliseconds: 1000,
            },
        };
        let mut event_actions: Vec<EventActionSetting> = Vec::new();
        event_actions.push(rule);
        ApplicationSettings {
            application_name: String::from_str("WarThunder Haptics GUI (Default)"),
            polling_interval_milliseconds: DEFAULT_POLLING_INTERVAL_MILLISECONDS,
            buttplug_server_address: String::from_str("ws://127.0.0.1:12345"),
            event_actions,
        }
    }
}

} // verus!
