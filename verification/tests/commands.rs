use sound_control_popup::audio::{
    audio_info_command, default_device_command, device_read_command, device_snapshot_command,
    get_default_device_id, list_devices, list_devices_command, load_audio_snapshot,
    load_device_snapshot, read_audio_info, read_device_snapshot, read_device_state, read_volume,
    set_default_device, set_default_device_command, set_volume, set_volume_command,
    start_device_snapshot, toggle_mute, toggle_mute_command, DeviceRead, DeviceSnapshotRead, Target,
};
use sound_control_popup::command::{
    command_line, ensure_success, render_command, run_capture, run_output, run_status,
    CommandOutput, SpawnResult,
};
use sound_control_popup::error::AudioError;
use sound_control_popup::text::{decimal_i32, decimal_u32};

fn exited(code: i32, stdout: &str, stderr: &str) -> SpawnResult {
    Ok(CommandOutput {
        exit_code: Some(code),
        stdout: stdout.as_bytes().to_vec(),
        stderr: stderr.as_bytes().to_vec(),
    })
}

fn args_of(cmd: &sound_control_popup::command::CommandLine) -> Vec<&str> {
    cmd.args.iter().map(|a| a.as_str()).collect()
}

#[test]
fn target_names() {
    assert_eq!(Target::Sink.object_name(), "@DEFAULT_AUDIO_SINK@");
    assert_eq!(Target::Source.object_name(), "@DEFAULT_AUDIO_SOURCE@");
    assert_eq!(Target::Sink.title(), "Output");
    assert_eq!(Target::Source.title(), "Input");
    assert_eq!(Target::Sink.icon(), "󰕾");
    assert_eq!(Target::Source.icon(), "󰍬");
}

#[test]
fn commands_for_each_operation() {
    let c = audio_info_command(Target::Sink);
    assert_eq!(c.program, "wpctl");
    assert_eq!(args_of(&c), vec!["get-volume", "@DEFAULT_AUDIO_SINK@"]);

    let c = default_device_command(Target::Source);
    assert_eq!(c.program, "pactl");
    assert_eq!(args_of(&c), vec!["get-default-source"]);

    let c = list_devices_command(Target::Sink);
    assert_eq!(args_of(&c), vec!["list", "sinks"]);

    let c = set_default_device_command(Target::Source, "mic.1");
    assert_eq!(c.program, "pactl");
    assert_eq!(args_of(&c), vec!["set-default-source", "mic.1"]);

    let c = toggle_mute_command(Target::Source);
    assert_eq!(c.program, "wpctl");
    assert_eq!(args_of(&c), vec!["set-mute", "@DEFAULT_AUDIO_SOURCE@", "toggle"]);

    let c = set_volume_command(Target::Sink, "0.42");
    assert_eq!(args_of(&c), vec!["set-volume", "-l", "1.5", "@DEFAULT_AUDIO_SINK@", "0.42"]);
}

#[test]
fn rendering_joins_arguments_with_spaces() {
    assert_eq!(render_command(&command_line("pactl", &[])), "pactl");
    assert_eq!(
        render_command(&command_line("wpctl", &["set-mute", "@DEFAULT_AUDIO_SINK@", "toggle"])),
        "wpctl set-mute @DEFAULT_AUDIO_SINK@ toggle"
    );
}

#[test]
fn decimal_rendering() {
    assert_eq!(decimal_u32(0), "0");
    assert_eq!(decimal_u32(150), "150");
    assert_eq!(decimal_u32(u32::MAX), "4294967295");
    assert_eq!(decimal_i32(-1), "-1");
    assert_eq!(decimal_i32(i32::MIN), "-2147483648");
    assert_eq!(decimal_i32(127), "127");
}

#[test]
fn success_passes_output_through() {
    let cmd = command_line("pactl", &["info"]);
    let out = CommandOutput { exit_code: Some(0), stdout: b"x".to_vec(), stderr: b"warn".to_vec() };
    let kept = ensure_success(&cmd, out).unwrap();
    assert_eq!(kept.stdout, b"x".to_vec());
    assert_eq!(kept.stderr, b"warn".to_vec());
}

#[test]
fn failure_names_exit_status_and_stderr() {
    let cmd = command_line("pactl", &["set-default-sink", "x"]);
    let out = CommandOutput { exit_code: Some(1), stdout: vec![], stderr: b"  No such entity\n".to_vec() };
    let err = ensure_success(&cmd, out).unwrap_err();
    assert_eq!(err.action(), "pactl set-default-sink x");
    assert_eq!(err.details(), "exit status 1: No such entity");
    assert_eq!(err.message(), "pactl set-default-sink x: exit status 1: No such entity");
}

#[test]
fn failure_without_stderr_names_the_signal() {
    let cmd = command_line("wpctl", &["status"]);
    let out = CommandOutput { exit_code: None, stdout: vec![], stderr: b" \n".to_vec() };
    let err = ensure_success(&cmd, out).unwrap_err();
    assert_eq!(err.details(), "terminated by signal");
    let out = CommandOutput { exit_code: Some(-3), stdout: vec![], stderr: vec![] };
    assert_eq!(ensure_success(&cmd, out).unwrap_err().details(), "exit status -3");
}

#[test]
fn invalid_stderr_is_decoded_lossily() {
    let cmd = command_line("wpctl", &[]);
    let out = CommandOutput { exit_code: Some(2), stdout: vec![], stderr: vec![b'b', 0xff, b'a'] };
    assert_eq!(ensure_success(&cmd, out).unwrap_err().details(), "exit status 2: b\u{fffd}a");
}

#[test]
fn spawn_failure_names_the_command() {
    let cmd = command_line("wpctl", &["get-volume", "@DEFAULT_AUDIO_SINK@"]);
    let err = run_output(&cmd, Err("No such file or directory (os error 2)".to_string())).unwrap_err();
    assert_eq!(err.action(), "spawn wpctl get-volume @DEFAULT_AUDIO_SINK@");
    assert_eq!(err.details(), "No such file or directory (os error 2)");
    assert!(run_status(&cmd, Err("gone".to_string())).is_err());
}

#[test]
fn capture_decodes_stdout() {
    let cmd = command_line("pactl", &["get-default-sink"]);
    assert_eq!(run_capture(&cmd, exited(0, "sink.a\n", "")).unwrap(), "sink.a\n");
    let bad = Ok(CommandOutput { exit_code: Some(0), stdout: vec![0xc3], stderr: vec![] });
    let err = run_capture(&cmd, bad).unwrap_err();
    assert_eq!(err.action(), "decode stdout from pactl get-default-sink");
    assert_eq!(err.details(), "incomplete utf-8 byte sequence from index 0");
    assert!(run_capture(&cmd, exited(1, "sink.a\n", "")).is_err());
}

#[test]
fn status_commands_succeed_on_zero_exit() {
    assert!(toggle_mute(Target::Sink, exited(0, "", "")).is_ok());
    let err = toggle_mute(Target::Sink, exited(1, "", "")).unwrap_err();
    assert_eq!(err.action(), "wpctl set-mute @DEFAULT_AUDIO_SINK@ toggle");
    assert!(set_default_device(Target::Sink, "dev", exited(0, "", "")).is_ok());
    let err = set_default_device(Target::Source, "dev", exited(3, "", "")).unwrap_err();
    assert_eq!(err.action(), "pactl set-default-source dev");
    assert!(set_volume(Target::Sink, "0.50", exited(0, "", "")).is_ok());
    assert!(set_volume(Target::Sink, "0.50", exited(1, "", "")).is_err());
}

#[test]
fn volume_reading_captures_the_figure() {
    let r = read_volume(Target::Sink, exited(0, "Volume: 0.37 [MUTED]\n", "")).unwrap();
    assert_eq!(r.raw, "Volume: 0.37 [MUTED]\n");
    assert_eq!(r.token.as_deref(), Some("0.37"));
    assert!(read_volume(Target::Sink, exited(1, "", "")).is_err());
}

#[test]
fn default_device_id_is_trimmed_and_not_empty() {
    assert_eq!(get_default_device_id(Target::Sink, exited(0, "  sink.a \n", "")).unwrap(), "sink.a");
    let err = get_default_device_id(Target::Source, exited(0, " \n", "")).unwrap_err();
    assert_eq!(err.action(), "read default input device");
    assert_eq!(err.details(), "pactl returned an empty device id");
}

#[test]
fn device_list_is_parsed_from_output() {
    let entries = list_devices(Target::Sink, exited(0, "Sink #1\n\tName: a\n\tDescription: A\n", "")).unwrap();
    assert_eq!(entries.len(), 1);
    assert_eq!(entries[0].id, "a");
    assert_eq!(entries[0].label, "A");
}

#[test]
fn device_read_runs_default_then_list() {
    let t = Target::Sink;
    let state = DeviceRead::AwaitDefault;
    let cmd = device_read_command(t, &state).unwrap();
    assert_eq!(args_of(&cmd), vec!["get-default-sink"]);
    let state = read_device_state(t, state, exited(0, "b\n", ""));
    let cmd = device_read_command(t, &state).unwrap();
    assert_eq!(args_of(&cmd), vec!["list", "sinks"]);
    let state = read_device_state(
        t,
        state,
        exited(0, "Sink #1\n\tName: a\nSink #2\n\tName: b\n\tDescription: Bee\n", ""),
    );
    assert!(device_read_command(t, &state).is_none());
    match state {
        DeviceRead::Done(Ok(s)) => {
            assert_eq!(s.current_id, "b");
            assert_eq!(s.entries.len(), 2);
            assert_eq!(s.entries[1].label, "Bee");
        }
        other => panic!("unexpected {other:?}"),
    }
}

#[test]
fn device_read_stops_at_first_failure() {
    let t = Target::Source;
    let state = read_device_state(t, DeviceRead::AwaitDefault, exited(1, "", "boom"));
    assert!(device_read_command(t, &state).is_none());
    let state = read_device_state(t, state, exited(0, "Source #1\n\tName: x\n", ""));
    match state {
        DeviceRead::Done(Err(e)) => assert_eq!(e.message(), "pactl get-default-source: exit status 1: boom"),
        other => panic!("unexpected {other:?}"),
    }
}

#[test]
fn audio_snapshot_reads_each_side_on_its_own() {
    let sink = read_volume(Target::Sink, exited(0, "Volume: 0.40\n", ""));
    let source = read_volume(Target::Source, exited(1, "", "no source"));
    let s = load_audio_snapshot(sink, Some(40), source, None);
    let sink = s.sink.clone().unwrap();
    assert_eq!(sink.volume_percent, 40);
    assert!(!sink.muted);
    assert_eq!(
        s.source.unwrap_err().message(),
        "wpctl get-volume @DEFAULT_AUDIO_SOURCE@: exit status 1: no source"
    );
}

#[test]
fn failed_reading_passes_its_error_through() {
    let err = AudioError::new("a".to_string(), "b".to_string());
    assert_eq!(read_audio_info(Target::Sink, Err(err), Some(3)).unwrap_err().message(), "a: b");
}

#[test]
fn device_snapshot_reads_input_after_failed_output() {
    let mut read = start_device_snapshot();
    let (t, cmd) = device_snapshot_command(&read).unwrap();
    assert_eq!(t, Target::Sink);
    assert_eq!(args_of(&cmd), vec!["get-default-sink"]);
    read = read_device_snapshot(read, exited(1, "", "down"));
    assert!(load_device_snapshot_done(&read).is_none());
    let (t, cmd) = device_snapshot_command(&read).unwrap();
    assert_eq!(t, Target::Source);
    assert_eq!(args_of(&cmd), vec!["get-default-source"]);
    read = read_device_snapshot(read, exited(0, "mic\n", ""));
    let (t, cmd) = device_snapshot_command(&read).unwrap();
    assert_eq!(t, Target::Source);
    assert_eq!(args_of(&cmd), vec!["list", "sources"]);
    read = read_device_snapshot(read, exited(0, "Source #1\n\tName: mic\n", ""));
    assert!(device_snapshot_command(&read).is_none());
    let snap = load_device_snapshot(read).unwrap();
    assert_eq!(snap.sink.clone().unwrap_err().message(), "pactl get-default-sink: exit status 1: down");
    let source = snap.source.unwrap();
    assert_eq!(source.current_id, "mic");
    assert_eq!(source.entries.len(), 1);
}

fn load_device_snapshot_done(read: &DeviceSnapshotRead) -> Option<()> {
    match (&read.sink, &read.source) {
        (DeviceRead::Done(_), DeviceRead::Done(_)) => Some(()),
        _ => None,
    }
}

#[test]
fn device_snapshot_reads_both_sides() {
    let mut read = start_device_snapshot();
    let outputs = [
        exited(0, "spk\n", ""),
        exited(0, "Sink #1\n\tName: spk\n\tDescription: Speakers\n", ""),
        exited(0, "mic\n", ""),
        exited(0, "", ""),
    ];
    for out in outputs {
        assert!(device_snapshot_command(&read).is_some());
        read = read_device_snapshot(read, out);
    }
    assert!(device_snapshot_command(&read).is_none());
    let snap = load_device_snapshot(read).unwrap();
    let sink = snap.sink.unwrap();
    assert_eq!(sink.current_id, "spk");
    assert_eq!(sink.entries[0].label, "Speakers");
    let source = snap.source.unwrap();
    assert_eq!(source.current_id, "mic");
    assert!(source.entries.is_empty());
}

#[test]
fn plain_ascii_stderr_reads_as_is() {
    let err = set_default_device(Target::Sink, "foo", exited(1, "", "Failure: No such entity\n")).unwrap_err();
    assert_eq!(err.message(), "pactl set-default-sink foo: exit status 1: Failure: No such entity");
}
