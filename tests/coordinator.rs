use tokio::sync::mpsc;
use warthunder_haptics::application::{WarThunderHapticsApplication, MAX_LOG_MESSAGES};
use warthunder_haptics::configuration_manager::{
    ApplicationSettings, DeviceAction, DeviceActionType, EventActionSetting,
};
use warthunder_haptics::message_passing::{
    ClonableButtplugClientDevice, CommandRouter, CommandToAsyncTasks, UpdateFromAsyncTasks,
};
use warthunder_haptics::war_thunder_connector::WarThunderIndicators;

fn dev(index: u32, name: &str) -> ClonableButtplugClientDevice {
    ClonableButtplugClientDevice { index, name: name.to_string() }
}

fn health(h: i32) -> WarThunderIndicators {
    WarThunderIndicators {
        vehicle_type: None,
        speed_milli: None,
        altitude_10k_milli: None,
        rpm_throttle_milli: None,
        health_milli_percent: Some(h),
    }
}

fn one_rule(action_type: DeviceActionType) -> ApplicationSettings {
    let mut s = ApplicationSettings::default();
    s.event_actions = vec![EventActionSetting {
        name: "hit".to_string(),
        enabled: true,
        device_action: DeviceAction { action_type, intensity_permille: 800, duration_milliseconds: 250 },
    }];
    s
}

fn indices(app: &WarThunderHapticsApplication) -> Vec<u32> {
    app.buttplug_devices.iter().map(|d| d.index).collect()
}

#[test]
fn device_list_mirrors_found_and_lost() {
    let mut app = WarThunderHapticsApplication::new(ApplicationSettings::default()).0;
    app.apply_update(UpdateFromAsyncTasks::ButtplugConnected);
    assert!(app.is_buttplug_connected);
    app.apply_update(UpdateFromAsyncTasks::ButtplugDeviceFound(dev(4, "a")));
    assert_eq!(app.selected_device_index, Some(4));
    app.apply_update(UpdateFromAsyncTasks::ButtplugDeviceFound(dev(4, "a")));
    app.apply_update(UpdateFromAsyncTasks::ButtplugDeviceFound(dev(9, "b")));
    assert_eq!(indices(&app), vec![4, 9]);
    assert!(app.select_device(9));
    assert!(!app.select_device(12));
    assert_eq!(app.selected_device_index, Some(9));
    app.apply_update(UpdateFromAsyncTasks::ButtplugDeviceLost(dev(4, "a")));
    assert_eq!(indices(&app), vec![9]);
    assert_eq!(app.selected_device_index, Some(9));
    app.apply_update(UpdateFromAsyncTasks::ButtplugDeviceLost(dev(9, "b")));
    assert!(app.buttplug_devices.is_empty());
    assert_eq!(app.selected_device_index, None);
}

#[test]
fn losing_selected_device_moves_selection_to_first() {
    let mut app = WarThunderHapticsApplication::new(ApplicationSettings::default()).0;
    app.apply_update(UpdateFromAsyncTasks::ButtplugDeviceFound(dev(1, "a")));
    app.apply_update(UpdateFromAsyncTasks::ButtplugDeviceFound(dev(2, "b")));
    app.apply_update(UpdateFromAsyncTasks::ButtplugDeviceFound(dev(3, "c")));
    app.select_device(2);
    app.apply_update(UpdateFromAsyncTasks::ButtplugDeviceLost(dev(2, "b")));
    assert_eq!(app.selected_device_index, Some(1));
    app.apply_update(UpdateFromAsyncTasks::ButtplugDisconnected);
    assert!(app.buttplug_devices.is_empty());
    assert_eq!(app.selected_device_index, None);
    assert!(!app.is_buttplug_connected);
}

#[test]
fn damage_with_processing_sends_command_to_selected_device() {
    let mut app = WarThunderHapticsApplication::new(one_rule(DeviceActionType::Vibrate)).0;
    app.apply_update(UpdateFromAsyncTasks::ButtplugDeviceFound(dev(6, "a")));
    assert!(matches!(app.set_processing_enabled(true), CommandToAsyncTasks::StartProcessing));
    assert!(app.apply_update(UpdateFromAsyncTasks::WarThunderIndicatorsUpdate(health(100_000))).is_empty());
    let cmds = app.apply_update(UpdateFromAsyncTasks::WarThunderIndicatorsUpdate(health(95_000)));
    assert!(matches!(
        cmds[..],
        [CommandToAsyncTasks::VibrateDevice { device_index: 6, speed_permille: 800, duration_milliseconds: 250 }]
    ));
    assert!(app.apply_update(UpdateFromAsyncTasks::WarThunderIndicatorsUpdate(health(95_000))).is_empty());
    assert!(app.apply_update(UpdateFromAsyncTasks::WarThunderIndicatorsUpdate(health(94_995))).is_empty());
    assert_eq!(app.current_wt_indicators.as_ref().unwrap().health_milli_percent, Some(94_995));
}

#[test]
fn stop_rule_sends_stop_command() {
    let mut app = WarThunderHapticsApplication::new(one_rule(DeviceActionType::Stop)).0;
    app.apply_update(UpdateFromAsyncTasks::ButtplugDeviceFound(dev(2, "a")));
    app.set_processing_enabled(true);
    app.apply_update(UpdateFromAsyncTasks::WarThunderIndicatorsUpdate(health(100_000)));
    let cmds = app.apply_update(UpdateFromAsyncTasks::WarThunderIndicatorsUpdate(health(50_000)));
    assert!(matches!(cmds[..], [CommandToAsyncTasks::StopDevice(2)]));
}

#[test]
fn damage_without_devices_or_processing_sends_nothing() {
    let mut app = WarThunderHapticsApplication::new(one_rule(DeviceActionType::Vibrate)).0;
    app.set_processing_enabled(true);
    app.apply_update(UpdateFromAsyncTasks::WarThunderIndicatorsUpdate(health(100_000)));
    assert!(app.apply_update(UpdateFromAsyncTasks::WarThunderIndicatorsUpdate(health(50_000))).is_empty());
    let mut app = WarThunderHapticsApplication::new(one_rule(DeviceActionType::Vibrate)).0;
    app.apply_update(UpdateFromAsyncTasks::ButtplugDeviceFound(dev(2, "a")));
    app.apply_update(UpdateFromAsyncTasks::WarThunderIndicatorsUpdate(health(100_000)));
    assert!(app.apply_update(UpdateFromAsyncTasks::WarThunderIndicatorsUpdate(health(50_000))).is_empty());
    assert_eq!(app.game_state_snapshot.last_health_milli_percent, None);
}

#[test]
fn connection_status_false_clears_snapshot() {
    let mut app = WarThunderHapticsApplication::new(ApplicationSettings::default()).0;
    app.apply_update(UpdateFromAsyncTasks::WarThunderConnectionStatus(true));
    app.apply_update(UpdateFromAsyncTasks::WarThunderIndicatorsUpdate(health(1)));
    assert!(app.is_war_thunder_connected);
    assert!(app.current_wt_indicators.is_some());
    app.apply_update(UpdateFromAsyncTasks::WarThunderConnectionStatus(false));
    assert!(!app.is_war_thunder_connected);
    assert!(app.current_wt_indicators.is_none());
}

#[test]
fn log_is_newest_first_and_bounded() {
    let mut app = WarThunderHapticsApplication::new(ApplicationSettings::default()).0;
    for i in 0..150 {
        app.apply_update(UpdateFromAsyncTasks::LogMessage(format!("line {}", i)));
    }
    assert_eq!(app.log_messages.len(), MAX_LOG_MESSAGES);
    assert_eq!(app.log_messages[0], "line 149");
    assert_eq!(app.log_messages[99], "line 50");
}

#[test]
fn settings_loaded_and_rule_editing() {
    let mut app = WarThunderHapticsApplication::new(ApplicationSettings::default()).0;
    let mut s = ApplicationSettings::default();
    s.polling_interval_milliseconds = 42;
    app.apply_update(UpdateFromAsyncTasks::ApplicationSettingsLoaded(s));
    assert_eq!(app.settings.polling_interval_milliseconds, 42);
    assert!(app.remove_event_action(5).is_none());
    assert!(matches!(app.remove_event_action(0), Some(CommandToAsyncTasks::UpdateApplicationSettings(ref x)) if x.event_actions.is_empty()));
    let rule = EventActionSetting {
        name: "new".to_string(),
        enabled: true,
        device_action: DeviceAction { action_type: DeviceActionType::Vibrate, intensity_permille: 500, duration_milliseconds: 500 },
    };
    assert!(matches!(app.add_event_action(rule), CommandToAsyncTasks::UpdateApplicationSettings(ref x) if x.event_actions.len() == 1));
    assert_eq!(app.settings.event_actions[0].name, "new");
}

#[test]
fn selected_device_commands() {
    let mut app = WarThunderHapticsApplication::new(ApplicationSettings::default()).0;
    assert!(app.test_vibration_command().is_none());
    assert!(app.stop_selected_command().is_none());
    app.apply_update(UpdateFromAsyncTasks::ButtplugDeviceFound(dev(8, "a")));
    assert!(matches!(
        app.test_vibration_command(),
        Some(CommandToAsyncTasks::VibrateDevice { device_index: 8, speed_permille: 500, duration_milliseconds: 0 })
    ));
    assert!(matches!(app.stop_selected_command(), Some(CommandToAsyncTasks::StopDevice(8))));
}

#[test]
fn router_sends_each_command_to_its_worker() {
    let (tx_poll, mut rx_poll) = mpsc::channel(10);
    let (tx_sess, mut rx_sess) = mpsc::channel(10);
    let router = CommandRouter::new(tx_poll, tx_sess);
    let d = router.dispatch(CommandToAsyncTasks::StopProcessing);
    assert!(d.to_poller && !d.to_session);
    let d = router.dispatch(CommandToAsyncTasks::ScanForButtplugDevices);
    assert!(!d.to_poller && d.to_session);
    let d = router.dispatch(CommandToAsyncTasks::UpdateApplicationSettings(ApplicationSettings::default()));
    assert!(d.to_poller && d.to_session);
    assert!(matches!(rx_poll.try_recv(), Ok(CommandToAsyncTasks::StopProcessing)));
    assert!(matches!(rx_poll.try_recv(), Ok(CommandToAsyncTasks::UpdateApplicationSettings(ref s)) if s.polling_interval_milliseconds == 250));
    assert!(rx_poll.try_recv().is_err());
    assert!(matches!(rx_sess.try_recv(), Ok(CommandToAsyncTasks::ScanForButtplugDevices)));
    assert!(matches!(rx_sess.try_recv(), Ok(CommandToAsyncTasks::UpdateApplicationSettings(_))));
    assert!(rx_sess.try_recv().is_err());
}

#[test]
fn full_queue_drops_command() {
    let (tx_poll, _rx_poll) = mpsc::channel(1);
    let (tx_sess, _rx_sess) = mpsc::channel(1);
    let router = CommandRouter::new(tx_poll, tx_sess);
    assert!(router.dispatch(CommandToAsyncTasks::StopDevice(1)).to_session);
    assert!(!router.dispatch(CommandToAsyncTasks::StopDevice(1)).to_session);
}

#[test]
fn tick_drains_updates_and_routes_commands() {
    let (tx_poll, mut rx_poll) = mpsc::channel(10);
    let (tx_sess, mut rx_sess) = mpsc::channel(10);
    let (tx_upd, mut rx_upd) = mpsc::channel(100);
    let router = CommandRouter::new(tx_poll, tx_sess);
    let mut app = WarThunderHapticsApplication::new(one_rule(DeviceActionType::Vibrate)).0;
    app.set_processing_enabled(true);
    tx_upd.try_send(UpdateFromAsyncTasks::ButtplugDeviceFound(dev(5, "a"))).unwrap();
    tx_upd.try_send(UpdateFromAsyncTasks::WarThunderIndicatorsUpdate(health(100_000))).unwrap();
    tx_upd.try_send(UpdateFromAsyncTasks::WarThunderIndicatorsUpdate(health(90_000))).unwrap();
    assert_eq!(app.handle_incoming_updates(&mut rx_upd, &router), 3);
    assert_eq!(app.handle_incoming_updates(&mut rx_upd, &router), 0);
    assert!(matches!(rx_sess.try_recv(), Ok(CommandToAsyncTasks::VibrateDevice { device_index: 5, .. })));
    assert!(rx_sess.try_recv().is_err());
    assert!(rx_poll.try_recv().is_err());
}

#[test]
fn tick_takes_at_most_one_queue_of_updates() {
    let (tx_poll, _rx_poll) = mpsc::channel(10);
    let (tx_sess, _rx_sess) = mpsc::channel(10);
    let (tx_upd, mut rx_upd) = mpsc::channel(200);
    let router = CommandRouter::new(tx_poll, tx_sess);
    let mut app = WarThunderHapticsApplication::new(ApplicationSettings::default()).0;
    for i in 0..150 {
        tx_upd.try_send(UpdateFromAsyncTasks::LogMessage(format!("{}", i))).unwrap();
    }
    assert_eq!(app.handle_incoming_updates(&mut rx_upd, &router), 100);
    assert_eq!(app.handle_incoming_updates(&mut rx_upd, &router), 50);
}

#[test]
fn new_pushes_initial_settings() {
    let mut s = ApplicationSettings::default();
    s.polling_interval_milliseconds = 777;
    let (app, cmd) = WarThunderHapticsApplication::new(s);
    assert_eq!(app.settings.polling_interval_milliseconds, 777);
    match cmd {
        CommandToAsyncTasks::UpdateApplicationSettings(pushed) => {
            assert_eq!(pushed.polling_interval_milliseconds, 777);
            assert_eq!(pushed.application_name, app.settings.application_name);
            assert_eq!(pushed.event_actions.len(), 1);
        }
        _ => panic!("expected the settings"),
    }
}

#[test]
fn rule_edits_push_the_new_settings() {
    let mut app = WarThunderHapticsApplication::new(ApplicationSettings::default()).0;
    let rule = EventActionSetting {
        name: "bump".to_string(),
        enabled: false,
        device_action: DeviceAction { action_type: DeviceActionType::Stop, intensity_permille: 10, duration_milliseconds: 20 },
    };
    match app.add_event_action(rule) {
        CommandToAsyncTasks::UpdateApplicationSettings(pushed) => {
            assert_eq!(pushed.event_actions.len(), 2);
            assert_eq!(pushed.event_actions[1].name, "bump");
            assert!(!pushed.event_actions[1].enabled);
            assert_eq!(pushed.event_actions[1].device_action, app.settings.event_actions[1].device_action);
            assert_eq!(pushed.buttplug_server_address, "ws://127.0.0.1:12345");
        }
        _ => panic!("expected the settings"),
    }
    match app.remove_event_action(0) {
        Some(CommandToAsyncTasks::UpdateApplicationSettings(pushed)) => {
            assert_eq!(pushed.event_actions.len(), 1);
            assert_eq!(pushed.event_actions[0].name, "bump");
            assert_eq!(pushed.application_name, "WarThunder Haptics GUI (Default)");
        }
        _ => panic!("expected the settings"),
    }
    let mut other = ApplicationSettings::default();
    other.application_name = "other".to_string();
    match app.adopt_settings(other) {
        CommandToAsyncTasks::UpdateApplicationSettings(pushed) => assert_eq!(pushed.application_name, "other"),
        _ => panic!("expected the settings"),
    }
    assert_eq!(app.settings.application_name, "other");
}

#[test]
fn clones_keep_every_field() {
    let d = dev(3, "x");
    let c = d.clone();
    assert_eq!((c.index, c.name.as_str()), (3, "x"));
    let s = one_rule(DeviceActionType::Vibrate);
    let t = s.clone();
    assert_eq!(t.event_actions.len(), 1);
    assert_eq!(t.event_actions[0].name, "hit");
    assert_eq!(t.event_actions[0].device_action, s.event_actions[0].device_action);
    assert_eq!(t.polling_interval_milliseconds, s.polling_interval_milliseconds);
}

#[test]
fn backend_error_is_logged_in_front() {
    let mut app = WarThunderHapticsApplication::new(ApplicationSettings::default()).0;
    app.apply_update(UpdateFromAsyncTasks::ButtplugError("boom".to_string()));
    assert_eq!(app.log_messages[0], "Haptic backend error: boom");
}

#[test]
fn tick_applies_failure_then_success_in_order() {
    let (tx_poll, _rx_poll) = mpsc::channel(10);
    let (tx_sess, _rx_sess) = mpsc::channel(10);
    let (tx_upd, mut rx_upd) = mpsc::channel(100);
    let router = CommandRouter::new(tx_poll, tx_sess);
    let mut app = WarThunderHapticsApplication::new(ApplicationSettings::default()).0;
    tx_upd.try_send(UpdateFromAsyncTasks::WarThunderConnectionStatus(false)).unwrap();
    tx_upd.try_send(UpdateFromAsyncTasks::WarThunderIndicatorsUpdate(health(70_000))).unwrap();
    tx_upd.try_send(UpdateFromAsyncTasks::WarThunderConnectionStatus(true)).unwrap();
    tx_upd.try_send(UpdateFromAsyncTasks::ButtplugDisconnected).unwrap();
    tx_upd.try_send(UpdateFromAsyncTasks::ButtplugDisconnected).unwrap();
    assert_eq!(app.handle_incoming_updates(&mut rx_upd, &router), 5);
    assert!(app.is_war_thunder_connected);
    assert_eq!(app.current_wt_indicators.as_ref().unwrap().health_milli_percent, Some(70_000));
    assert!(!app.is_buttplug_connected);
    assert!(app.buttplug_devices.is_empty());
}
