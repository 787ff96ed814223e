use sound_control_popup::audio::{AudioInfo, DeviceState, Target};
use sound_control_popup::devices::DeviceEntry;
use sound_control_popup::error::AudioError;
use sound_control_popup::view::{
    audio_section_view, command_follow_up, device_select_view, next_volume_request, percent_label,
    refresh_step, should_close_after_focus_loss, volume_request_is_latest, CommandPoll,
    DeviceChoices, RefreshEvent, RefreshPoll,
};

fn entry(id: &str, label: &str) -> DeviceEntry {
    DeviceEntry { id: id.to_string(), label: label.to_string() }
}

#[test]
fn headings_and_labels() {
    assert_eq!(Target::Sink.heading(), "󰕾  Output");
    assert_eq!(Target::Source.heading(), "󰍬  Input");
    assert_eq!(percent_label(0), "0%");
    assert_eq!(percent_label(37), "37%");
}

#[test]
fn live_section_shows_level_and_live_badge() {
    let v = audio_section_view(Target::Sink, Ok(AudioInfo { volume_percent: 37, muted: false }), false);
    assert_eq!(v.level_label.as_deref(), Some("37%"));
    assert_eq!(v.slider_value, Some(37));
    assert!(v.controls_enabled);
    assert_eq!(v.tooltip, None);
    assert_eq!(v.button_label, "󰕾");
    assert_eq!(v.badge_label, "Live");
    assert_eq!(v.badge_class, "status-live");
}

#[test]
fn loud_section_caps_the_slider() {
    let v = audio_section_view(Target::Source, Ok(AudioInfo { volume_percent: 180, muted: true }), false);
    assert_eq!(v.level_label.as_deref(), Some("180%"));
    assert_eq!(v.slider_value, Some(150));
    assert_eq!(v.button_label, "󰍭");
    assert_eq!(v.badge_label, "Muted");
    assert_eq!(v.badge_class, "status-muted");
}

#[test]
fn dragging_leaves_the_level_alone() {
    let v = audio_section_view(Target::Sink, Ok(AudioInfo { volume_percent: 20, muted: true }), true);
    assert_eq!(v.level_label, None);
    assert_eq!(v.slider_value, None);
    assert_eq!(v.badge_label, "Muted");
}

#[test]
fn failed_section_is_unavailable() {
    let err = AudioError::new("spawn wpctl".to_string(), "missing".to_string());
    let v = audio_section_view(Target::Source, Err(err), true);
    assert_eq!(v.level_label.as_deref(), Some("--"));
    assert_eq!(v.slider_value, None);
    assert!(!v.controls_enabled);
    assert_eq!(v.tooltip.as_deref(), Some("spawn wpctl: missing"));
    assert_eq!(v.button_label, "󰍬");
    assert_eq!(v.badge_label, "Unavailable");
    assert_eq!(v.badge_class, "status-unavailable");
}

#[test]
fn device_selector_is_sensitive_only_with_choices() {
    let one = DeviceState { current_id: "a".to_string(), entries: vec![entry("a", "A")] };
    let v = device_select_view(Ok(one));
    assert!(!v.sensitive);
    assert!(v.single_option);
    let two = DeviceState { current_id: "b".to_string(), entries: vec![entry("a", "A"), entry("b", "B")] };
    let v = device_select_view(Ok(two));
    assert!(v.sensitive);
    assert!(!v.single_option);
    assert_eq!(v.tooltip, None);
    match v.choices {
        DeviceChoices::Devices(es, id) => {
            assert_eq!(id, "b");
            assert_eq!(es.len(), 2);
        }
        other => panic!("unexpected {other:?}"),
    }
}

#[test]
fn failed_device_selector_shows_placeholder() {
    let v = device_select_view(Err(AudioError::new("x".to_string(), "y".to_string())));
    assert!(!v.sensitive);
    assert!(v.single_option);
    assert_eq!(v.tooltip.as_deref(), Some("x: y"));
    match v.choices {
        DeviceChoices::Placeholder(t) => assert_eq!(t, "Unavailable"),
        other => panic!("unexpected {other:?}"),
    }
}

#[test]
fn command_follow_ups() {
    let f = command_follow_up(CommandPoll::Pending, true);
    assert!(f.keep_polling && !f.release_adjusting && !f.refresh_info && !f.refresh_devices);
    let f = command_follow_up(CommandPoll::Finished(Ok(())), true);
    assert!(!f.keep_polling && f.release_adjusting && f.refresh_info && f.refresh_devices);
    assert_eq!(f.report, None);
    let err = AudioError::new("wpctl set-mute".to_string(), "exit status 1".to_string());
    let f = command_follow_up(CommandPoll::Finished(Err(err)), false);
    assert!(!f.refresh_devices && f.refresh_info);
    assert_eq!(f.report.as_deref(), Some("sound-control-popup: wpctl set-mute: exit status 1"));
    let f = command_follow_up(CommandPoll::Disconnected, true);
    assert!(!f.keep_polling && f.release_adjusting && f.refresh_info && !f.refresh_devices);
}

#[test]
fn refresh_requests_while_running_start_nothing() {
    let (running, step) = refresh_step(false, RefreshEvent::Request);
    assert!(running && step.start && !step.apply && !step.keep_polling);
    let (running, step) = refresh_step(running, RefreshEvent::Request);
    assert!(running && !step.start);
    let (running, step) = refresh_step(running, RefreshEvent::Poll(RefreshPoll::Pending));
    assert!(running && step.keep_polling && !step.apply);
    let (running, step) = refresh_step(running, RefreshEvent::Poll(RefreshPoll::Received));
    assert!(!running && step.apply && !step.keep_polling);
    let (running, step) = refresh_step(running, RefreshEvent::Request);
    assert!(running && step.start);
    let (running, step) = refresh_step(running, RefreshEvent::Poll(RefreshPoll::Disconnected));
    assert!(!running && !step.apply && !step.keep_polling);
}

#[test]
fn only_the_latest_slider_move_is_sent() {
    let first = next_volume_request(0);
    let second = next_volume_request(first);
    assert_eq!(first, 1);
    assert_eq!(second, 2);
    assert!(!volume_request_is_latest(second, first));
    assert!(volume_request_is_latest(second, second));
}

#[test]
fn focus_loss_closes_unless_a_list_is_open() {
    assert!(should_close_after_focus_loss(false, false, false));
    assert!(!should_close_after_focus_loss(true, false, false));
    assert!(!should_close_after_focus_loss(false, true, false));
    assert!(!should_close_after_focus_loss(false, false, true));
}
