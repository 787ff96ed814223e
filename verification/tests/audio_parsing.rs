use sound_control_popup::audio::{read_audio_info, volume_token, Target, VolumeReading};
use sound_control_popup::devices::parse_device_entries;

/// The volume figure scaled to percent, as the popup's front end computes it.
fn percent_of(token: &str) -> Option<u32> {
    let value = token.parse::<f32>().ok()?;
    Some((value * 100.0).round() as u32)
}

fn parse_volume_percent(raw: &str) -> Option<u32> {
    volume_token(raw).and_then(|token| percent_of(&token))
}

#[test]
fn parses_wpctl_volume_output() {
    assert_eq!(parse_volume_percent("Volume: 0.37 [MUTED]\n"), Some(37));
}

#[test]
fn device_entries_fall_back_to_name_when_description_is_missing() {
    let raw = "\
Sink #52
\tName: alsa_output.usb-DAC-00.analog-stereo
";

    let entries = parse_device_entries(raw, Target::Sink);
    assert_eq!(entries.len(), 1);
    assert_eq!(entries[0].id, "alsa_output.usb-DAC-00.analog-stereo");
    assert_eq!(entries[0].label, "alsa_output.usb-DAC-00.analog-stereo");
}

#[test]
fn source_entries_skip_monitor_devices() {
    let raw = "\
Source #31
\tName: alsa_output.pci-0000_00_1f.3.analog-stereo.monitor
\tDescription: Monitor of Built-in Audio Analog Stereo
Source #32
\tName: alsa_input.usb-Logitech_USB_Microphone-00.mono-fallback
\tDescription: Logitech USB Microphone Mono
";

    let entries = parse_device_entries(raw, Target::Source);
    assert_eq!(entries.len(), 1);
    assert_eq!(
        entries[0].id,
        "alsa_input.usb-Logitech_USB_Microphone-00.mono-fallback"
    );
    assert_eq!(entries[0].label, "Logitech USB Microphone Mono");
}

#[test]
fn volume_token_skips_words_without_digits() {
    assert_eq!(volume_token("Volume: 0.37 [MUTED]\n").as_deref(), Some("0.37"));
    assert_eq!(volume_token("  \tVolume:\u{a0}1.00\n").as_deref(), Some("1.00"));
    assert_eq!(volume_token("no figure here"), None);
    assert_eq!(volume_token(""), None);
}

#[test]
fn unmuted_volume_reads_as_live() {
    let reading = VolumeReading {
        raw: "Volume: 0.55\n".to_string(),
        token: Some("0.55".to_string()),
    };
    let info = read_audio_info(Target::Sink, Ok(reading), Some(55)).unwrap();
    assert_eq!(info.volume_percent, 55);
    assert!(!info.muted);
    assert_eq!(info.status_label(), "Live");
}

#[test]
fn muted_volume_reads_as_muted() {
    let reading = VolumeReading {
        raw: "Volume: 0.37 [MUTED]\n".to_string(),
        token: Some("0.37".to_string()),
    };
    let info = read_audio_info(Target::Source, Ok(reading), Some(37)).unwrap();
    assert_eq!(info.volume_percent, 37);
    assert!(info.muted);
    assert_eq!(info.status_label(), "Muted");
    assert_eq!(info.button_icon(Target::Source), "󰍭");
    assert_eq!(info.button_icon(Target::Sink), "󰖁");
}

#[test]
fn volume_without_figure_is_a_parse_error() {
    let reading = VolumeReading {
        raw: "  Volume: unknown \n".to_string(),
        token: None,
    };
    let err = read_audio_info(Target::Sink, Ok(reading), None).unwrap_err();
    assert_eq!(err.action(), "parse output volume");
    assert_eq!(err.details(), "unexpected output: Volume: unknown");
    assert_eq!(err.message(), "parse output volume: unexpected output: Volume: unknown");
}

#[test]
fn sink_list_keeps_monitor_named_sinks_and_drops_nameless_blocks() {
    let raw = "Sink #1\r\n  Name: a.monitor\r\n  Description:   First  \r\nSink #2\n\tDescription: Orphan\nSink #3\n\tName: b\n";
    let entries = parse_device_entries(raw, Target::Sink);
    assert_eq!(entries.len(), 2);
    assert_eq!(entries[0].id, "a.monitor");
    assert_eq!(entries[0].label, "First");
    // The block without a name adds nothing, and its description does not
    // reach the next block, which falls back to its own name.
    assert_eq!(entries[1].id, "b");
    assert_eq!(entries[1].label, "b");
}

#[test]
fn nameless_block_description_does_not_label_the_next_block() {
    let raw = "Sink #1\n\tDescription: Ghost\nSink #2\n\tName: b\n";
    let entries = parse_device_entries(raw, Target::Sink);
    assert_eq!(entries.len(), 1);
    assert_eq!(entries[0].id, "b");
    assert_eq!(entries[0].label, "b");
}

#[test]
fn empty_listing_has_no_entries() {
    assert!(parse_device_entries("", Target::Sink).is_empty());
    assert!(parse_device_entries("Sink #1\n", Target::Sink).is_empty());
    // Source headers do not open blocks in a sink listing.
    let raw = "Source #4\n\tName: x\nSource #5\n\tName: y\n";
    let entries = parse_device_entries(raw, Target::Sink);
    assert_eq!(entries.len(), 1);
    assert_eq!(entries[0].id, "y");
}

#[test]
fn carriage_returns_and_missing_final_newline_are_tolerated() {
    let raw = "Source #7\r\n\tName: alsa_input.pci-0000.analog-stereo\r\n\tDescription: Built-in Mic\r";
    let entries = parse_device_entries(raw, Target::Source);
    assert_eq!(entries.len(), 1);
    assert_eq!(entries[0].id, "alsa_input.pci-0000.analog-stereo");
    assert_eq!(entries[0].label, "Built-in Mic");
}

#[test]
fn reading_without_figure_is_a_parse_error_whatever_the_percent() {
    let reading = VolumeReading {
        raw: "Volume: muted\n".to_string(),
        token: None,
    };
    let err = read_audio_info(Target::Source, Ok(reading), Some(50)).unwrap_err();
    assert_eq!(err.message(), "parse input volume: unexpected output: Volume: muted");
}

#[test]
fn well_formed_listing_gives_one_entry_per_named_block() {
    let raw = "Source #1\nName: in.a\nDescription: Mic A\nSource #2\nName: out.b.monitor\nDescription: Monitor\nSource #3\nName: in.c\n";
    let entries = parse_device_entries(raw, Target::Source);
    assert_eq!(entries.len(), 2);
    assert_eq!((entries[0].id.as_str(), entries[0].label.as_str()), ("in.a", "Mic A"));
    assert_eq!((entries[1].id.as_str(), entries[1].label.as_str()), ("in.c", "in.c"));
}
