use warthunder_haptics::buttplug_connector::{
    ActuatorChannel, ActuatorKind, BackendAction, BackendEvent, DeviceEntry, DeviceSession, SessionState,
    SessionStep, StopTimer,
};
use warthunder_haptics::message_passing::{CommandToAsyncTasks, UpdateFromAsyncTasks};

fn non_logs(v: &[UpdateFromAsyncTasks]) -> Vec<&UpdateFromAsyncTasks> {
    v.iter().filter(|u| !matches!(u, UpdateFromAsyncTasks::LogMessage(_))).collect()
}

fn device(index: u32, name: &str, chans: &[(u32, ActuatorKind)]) -> DeviceEntry<String> {
    let channels = chans.iter().map(|&(feature_index, kind)| ActuatorChannel { feature_index, kind }).collect();
    DeviceEntry::new(index, name.to_string(), channels, format!("handle-{}", index))
}

fn connected() -> DeviceSession<String> {
    let mut s = DeviceSession::new();
    let step = s.handle_command(CommandToAsyncTasks::ScanForButtplugDevices);
    assert!(matches!(step.actions[..], [BackendAction::Connect]));
    assert_eq!(s.state, SessionState::Connecting);
    let step = s.connect_finished(Ok(()));
    assert!(matches!(step.actions[..], [BackendAction::StartScanning]));
    assert!(matches!(non_logs(&step.updates)[..], [UpdateFromAsyncTasks::ButtplugConnected]));
    assert_eq!(s.state, SessionState::Connected);
    s
}

fn indices(s: &DeviceSession<String>) -> Vec<u32> {
    s.registry.iter().map(|e| e.index).collect()
}

fn no_effect(step: &SessionStep) -> bool {
    step.actions.is_empty() && non_logs(&step.updates).is_empty()
}

#[test]
fn repeated_discovery_keeps_one_entry_per_index() {
    let mut s = connected();
    let step = s.handle_backend_event(BackendEvent::DeviceAdded(device(3, "a", &[])));
    assert!(matches!(non_logs(&step.updates)[..], [UpdateFromAsyncTasks::ButtplugDeviceFound(d)] if d.index == 3 && d.name == "a"));
    let step = s.handle_backend_event(BackendEvent::DeviceAdded(device(3, "a again", &[])));
    assert!(no_effect(&step));
    s.handle_backend_event(BackendEvent::DeviceAdded(device(7, "b", &[])));
    assert_eq!(indices(&s), vec![3, 7]);
    let step = s.handle_backend_event(BackendEvent::DeviceRemoved(3));
    assert!(matches!(non_logs(&step.updates)[..], [UpdateFromAsyncTasks::ButtplugDeviceLost(d)] if d.index == 3 && d.name == "a"));
    let step = s.handle_backend_event(BackendEvent::DeviceRemoved(3));
    assert!(no_effect(&step));
    s.handle_backend_event(BackendEvent::DeviceAdded(device(3, "a", &[])));
    s.handle_backend_event(BackendEvent::DeviceAdded(device(7, "b", &[])));
    assert_eq!(indices(&s), vec![7, 3]);
    assert_eq!(s.device_handle(3), Some(&"handle-3".to_string()));
    assert_eq!(s.device_handle(9), None);
}

#[test]
fn vibrate_unknown_index_makes_no_backend_call() {
    let mut s = connected();
    s.handle_backend_event(BackendEvent::DeviceAdded(device(0, "a", &[(0, ActuatorKind::Vibrate)])));
    let step = s.handle_command(CommandToAsyncTasks::VibrateDevice { device_index: 5, speed_permille: 500, duration_milliseconds: 0 });
    assert!(no_effect(&step));
    let step = s.handle_command(CommandToAsyncTasks::VibrateDevice { device_index: u32::MAX, speed_permille: 500, duration_milliseconds: 0 });
    assert!(no_effect(&step));
    let step = s.handle_command(CommandToAsyncTasks::StopDevice(5));
    assert!(no_effect(&step));
}

#[test]
fn vibrate_when_not_connected_makes_no_backend_call() {
    let mut s: DeviceSession<String> = DeviceSession::new();
    let step = s.handle_command(CommandToAsyncTasks::VibrateDevice { device_index: 0, speed_permille: 500, duration_milliseconds: 0 });
    assert!(no_effect(&step));
}

#[test]
fn vibrate_targets_only_vibration_channels_and_clamps_speed() {
    let mut s = connected();
    s.handle_backend_event(BackendEvent::DeviceAdded(device(
        4,
        "mixed",
        &[(0, ActuatorKind::Rotate), (1, ActuatorKind::Vibrate), (2, ActuatorKind::Oscillate), (5, ActuatorKind::Vibrate)],
    )));
    let step = s.handle_command(CommandToAsyncTasks::VibrateDevice { device_index: 4, speed_permille: 1500, duration_milliseconds: 0 });
    match &step.actions[..] {
        [BackendAction::Vibrate { device_index, feature_indices, speed_permille, stop_timer }] => {
            assert_eq!(*device_index, 4);
            assert_eq!(feature_indices, &vec![1, 5]);
            assert_eq!(*speed_permille, 1000);
            assert_eq!(*stop_timer, None);
        }
        _ => panic!("expected one vibration"),
    }
}

#[test]
fn device_without_vibration_channel_is_not_called() {
    let mut s = connected();
    s.handle_backend_event(BackendEvent::DeviceAdded(device(1, "rotor", &[(0, ActuatorKind::Rotate)])));
    let step = s.handle_command(CommandToAsyncTasks::VibrateDevice { device_index: 1, speed_permille: 300, duration_milliseconds: 0 });
    assert!(no_effect(&step));
    assert_eq!(step.updates.len(), 1);
}

#[test]
fn timed_vibration_schedules_its_own_stop() {
    let mut s = connected();
    s.handle_backend_event(BackendEvent::DeviceAdded(device(2, "v", &[(0, ActuatorKind::Vibrate)])));
    let step = s.handle_command(CommandToAsyncTasks::VibrateDevice { device_index: 2, speed_permille: 300, duration_milliseconds: 1000 });
    let first = match &step.actions[..] {
        [BackendAction::Vibrate { stop_timer: Some(t), .. }] => *t,
        _ => panic!("expected a timed vibration"),
    };
    assert_eq!(first, StopTimer { request: 0, after_milliseconds: 1000 });
    let step = s.handle_command(CommandToAsyncTasks::VibrateDevice { device_index: 2, speed_permille: 600, duration_milliseconds: 200 });
    let second = match &step.actions[..] {
        [BackendAction::Vibrate { stop_timer: Some(t), .. }] => *t,
        _ => panic!("expected a timed vibration"),
    };
    assert_eq!(second, StopTimer { request: 1, after_milliseconds: 200 });
    // the first timer was superseded
    assert!(no_effect(&s.stop_timer_expired(2, first.request)));
    let step = s.stop_timer_expired(2, second.request);
    assert!(matches!(step.actions[..], [BackendAction::StopDevice(2)]));
    // a timer fires once
    assert!(no_effect(&s.stop_timer_expired(2, second.request)));
}

#[test]
fn explicit_stop_cancels_pending_timer() {
    let mut s = connected();
    s.handle_backend_event(BackendEvent::DeviceAdded(device(2, "v", &[(0, ActuatorKind::Vibrate)])));
    s.handle_command(CommandToAsyncTasks::VibrateDevice { device_index: 2, speed_permille: 300, duration_milliseconds: 1000 });
    let step = s.handle_command(CommandToAsyncTasks::StopDevice(2));
    assert!(matches!(step.actions[..], [BackendAction::StopDevice(2)]));
    assert!(no_effect(&s.stop_timer_expired(2, 0)));
}

#[test]
fn disconnect_while_uninitialized_reports_once() {
    let mut s: DeviceSession<String> = DeviceSession::new();
    let step = s.handle_command(CommandToAsyncTasks::DisconnectButtplug);
    assert!(step.actions.is_empty());
    assert!(matches!(non_logs(&step.updates)[..], [UpdateFromAsyncTasks::ButtplugDisconnected]));
    assert!(s.registry.is_empty());
    assert_eq!(s.state, SessionState::Uninitialized);
}

#[test]
fn disconnect_while_connected_tears_down_and_clears() {
    let mut s = connected();
    s.handle_backend_event(BackendEvent::DeviceAdded(device(1, "a", &[])));
    let step = s.handle_command(CommandToAsyncTasks::DisconnectButtplug);
    assert!(matches!(step.actions[..], [BackendAction::Disconnect]));
    assert!(matches!(non_logs(&step.updates)[..], [UpdateFromAsyncTasks::ButtplugDisconnected]));
    assert!(s.registry.is_empty());
    assert_eq!(s.state, SessionState::Uninitialized);
}

#[test]
fn failed_connection_reports_error_then_disconnected() {
    let mut s: DeviceSession<String> = DeviceSession::new();
    s.handle_command(CommandToAsyncTasks::ScanForButtplugDevices);
    let step = s.connect_finished(Err("refused".to_string()));
    assert!(step.actions.is_empty());
    let rest = non_logs(&step.updates);
    assert!(matches!(rest[..], [UpdateFromAsyncTasks::ButtplugError(m), UpdateFromAsyncTasks::ButtplugDisconnected] if m == "refused"));
    assert_eq!(s.state, SessionState::Uninitialized);
}

#[test]
fn scan_while_connected_only_scans() {
    let mut s = connected();
    let step = s.handle_command(CommandToAsyncTasks::ScanForButtplugDevices);
    assert!(matches!(step.actions[..], [BackendAction::StartScanning]));
    let step = s.scan_finished(Err("busy".to_string()));
    assert!(matches!(step.updates[..], [UpdateFromAsyncTasks::ButtplugError(ref m)] if m == "busy"));
    let step = s.scan_finished(Ok(()));
    assert!(no_effect(&step));
}

#[test]
fn backend_disconnects_clear_registry() {
    for ev in [BackendEvent::ServerDisconnect, BackendEvent::PingTimeout, BackendEvent::StreamEnded] {
        let mut s = connected();
        s.handle_backend_event(BackendEvent::DeviceAdded(device(1, "a", &[])));
        let step = s.handle_backend_event(ev);
        assert!(matches!(non_logs(&step.updates)[..], [UpdateFromAsyncTasks::ButtplugDisconnected]));
        assert!(s.registry.is_empty());
        assert_eq!(s.state, SessionState::Uninitialized);
    }
}

#[test]
fn stream_errors() {
    let mut s = connected();
    s.handle_backend_event(BackendEvent::DeviceAdded(device(1, "a", &[])));
    let step = s.handle_backend_event(BackendEvent::StreamError { message: "glitch".to_string(), connector_lost: false });
    assert!(matches!(non_logs(&step.updates)[..], [UpdateFromAsyncTasks::ButtplugError(m)] if m == "glitch"));
    assert_eq!(indices(&s), vec![1]);
    let step = s.handle_backend_event(BackendEvent::StreamError { message: "gone".to_string(), connector_lost: true });
    assert!(matches!(non_logs(&step.updates)[..], [UpdateFromAsyncTasks::ButtplugError(_), UpdateFromAsyncTasks::ButtplugDisconnected]));
    assert!(s.registry.is_empty());
    // events of a torn-down session are ignored
    let step = s.handle_backend_event(BackendEvent::DeviceAdded(device(1, "a", &[])));
    assert!(no_effect(&step));
    assert!(s.registry.is_empty());
}
