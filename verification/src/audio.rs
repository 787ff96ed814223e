//! The audio model: the default output and input, what `wpctl` and `pactl`
//! report about them, and the commands that change them.
use vstd::prelude::*;

use crate::command::{
    capture_outcome, command_line, error_view, run_capture, run_status, status_outcome,
    text_view, CommandLine, CommandText, SpawnResult,
};
use crate::devices::{device_entries, entries_text, parse_device_entries, DeviceEntry, EntryText};
use crate::error::{AudioError, AudioResult, ErrorText};
use crate::text::{
    ascii_lower, chars_of, concat2, concat3, contains_text, find_word_end, first_with_digit,
    is_whitespace, range_has_ascii_digit, string_from_range, text_contains, to_ascii_lower,
    trim, trimmed, words,
};

verus! {

/// Which side of the audio graph an operation concerns.
#[derive(Clone, Copy, Debug, PartialEq, Eq, Structural)]
pub enum Target {
    Sink,
    Source,
}

impl Target {
    pub open spec fn object_name_text(self) -> Seq<char> {
        match self {
            Target::Sink => "@DEFAULT_AUDIO_SINK@"@,
            Target::Source => "@DEFAULT_AUDIO_SOURCE@"@,
        }
    }

    pub open spec fn title_text(self) -> Seq<char> {
        match self {
            Target::Sink => "Output"@,
            Target::Source => "Input"@,
        }
    }

    pub open spec fn icon_text(self) -> Seq<char> {
        match self {
            Target::Sink => "󰕾"@,
            Target::Source => "󰍬"@,
        }
    }

    pub open spec fn status_icon_text(self, muted: bool) -> Seq<char> {
        match (self, muted) {
            (Target::Sink, true) => "󰖁"@,
            (Target::Sink, false) => "󰕾"@,
            (Target::Source, true) => "󰍭"@,
            (Target::Source, false) => "󰍬"@,
        }
    }

    /// The name `wpctl` knows the default device of this side by.
    pub fn object_name(self) -> (s: &'static str)
        ensures
            s@ == self.object_name_text(),
    {
        match self {
            Target::Sink => "@DEFAULT_AUDIO_SINK@",
            Target::Source => "@DEFAULT_AUDIO_SOURCE@",
        }
    }

    /// The section heading for this side.
    pub fn title(self) -> (s: &'static str)
        ensures
            s@ == self.title_text(),
    {
        match self {
            Target::Sink => "Output",
            Target::Source => "Input",
        }
    }

    /// The icon for this side.
    pub fn icon(self) -> (s: &'static str)
        ensures
            s@ == self.icon_text(),
    {
        match self {
            Target::Sink => "󰕾",
            Target::Source => "󰍬",
        }
    }

    /// The `pactl` arguments that print the default device of this side.
    fn default_device_args(self) -> (a: [&'static str; 1])
        ensures
            a@.map_values(|s: &str| s@) == self.default_device_args_text(),
    {
        let a = match self {
            Target::Sink => ["get-default-sink"],
            Target::Source => ["get-default-source"],
        };
        assert(a@.map_values(|s: &str| s@) =~= self.default_device_args_text());
        a
    }

    pub open spec fn default_device_args_text(self) -> Seq<Seq<char>> {
        match self {
            Target::Sink => seq!["get-default-sink"@],
            Target::Source => seq!["get-default-source"@],
        }
    }

    /// The `pactl` arguments that list the devices of this side.
    fn list_device_args(self) -> (a: [&'static str; 2])
        ensures
            a@.map_values(|s: &str| s@) == self.list_device_args_text(),
    {
        let a = match self {
            Target::Sink => ["list", "sinks"],
            Target::Source => ["list", "sources"],
        };
        assert(a@.map_values(|s: &str| s@) =~= self.list_device_args_text());
        a
    }

    pub open spec fn list_device_args_text(self) -> Seq<Seq<char>> {
        match self {
            Target::Sink => seq!["list"@, "sinks"@],
            Target::Source => seq!["list"@, "sources"@],
        }
    }

    /// The icon of the mute button: crossed out while muted.
    fn status_icon(self, muted: bool) -> (s: &'static str)
        ensures
            s@ == self.status_icon_text(muted),
    {
        match (self, muted) {
            (Target::Sink, true) => "󰖁",
            (Target::Sink, false) => "󰕾",
            (Target::Source, true) => "󰍭",
            (Target::Source, false) => "󰍬",
        }
    }

    /// The `wpctl` arguments that toggle mute on this side.
    fn mute_command(self) -> (a: [&'static str; 3])
        ensures
            a@.map_values(|s: &str| s@) == self.mute_args_text(),
    {
        let a = ["set-mute", self.object_name(), "toggle"];
        assert(a@.map_values(|s: &str| s@) =~= self.mute_args_text());
        a
    }

    pub open spec fn mute_args_text(self) -> Seq<Seq<char>> {
        seq!["set-mute"@, self.object_name_text(), "toggle"@]
    }
}

/// The volume and mute state of one side.
#[derive(Clone, Copy, Debug)]
pub struct AudioInfo {
    pub volume_percent: u32,
    pub muted: bool,
}

impl AudioInfo {
    /// The badge text: `Muted` or `Live`.
    pub fn status_label(&self) -> (s: &'static str)
        ensures
            s@ == (if self.muted { "Muted"@ } else { "Live"@ }),
    {
        if self.muted {
            "Muted"
        } else {
            "Live"
        }
    }

    /// The mute button's icon for this state.
    pub fn button_icon(&self, target: Target) -> (s: &'static str)
        ensures
            s@ == target.status_icon_text(self.muted),
    {
        target.status_icon(self.muted)
    }
}

/// The default device of one side and the devices it can be switched to.
#[derive(Clone, Debug)]
pub struct DeviceState {
    pub current_id: String,
    pub entries: Vec<DeviceEntry>,
}

/// A device state as plain text: the current device's id and the entries.
pub type DeviceStateText = (Seq<char>, Seq<EntryText>);

impl View for DeviceState {
    type V = DeviceStateText;

    open spec fn view(&self) -> DeviceStateText {
        (self.current_id@, entries_text(self.entries@))
    }
}

/// Volume and mute state of both sides.
#[derive(Debug)]
pub struct AudioSnapshot {
    pub sink: AudioResult<AudioInfo>,
    pub source: AudioResult<AudioInfo>,
}

/// Device state of both sides.
#[derive(Debug)]
pub struct DeviceSnapshot {
    pub sink: AudioResult<DeviceState>,
    pub source: AudioResult<DeviceState>,
}

fn clone_result<T: Clone>(r: &AudioResult<T>) -> AudioResult<T> {
    match r {
        Ok(v) => Ok(v.clone()),
        Err(e) => Err(e.clone()),
    }
}

impl Clone for AudioSnapshot {
    fn clone(&self) -> Self {
        AudioSnapshot { sink: clone_result(&self.sink), source: clone_result(&self.source) }
    }
}

impl Clone for DeviceSnapshot {
    fn clone(&self) -> Self {
        DeviceSnapshot { sink: clone_result(&self.sink), source: clone_result(&self.source) }
    }
}

// ---------------------------------------------------------------------------
// Reading the volume
// ---------------------------------------------------------------------------

pub open spec fn audio_info_command_text(target: Target) -> CommandText {
    ("wpctl"@, seq!["get-volume"@, target.object_name_text()])
}

/// `wpctl get-volume` for the default device of `target`.
pub fn audio_info_command(target: Target) -> (c: CommandLine)
    ensures
        c@ == audio_info_command_text(target),
{
    let args = ["get-volume", target.object_name()];
    let c = command_line("wpctl", &args);
    assert(c@.1 =~= audio_info_command_text(target).1);
    c
}

/// The first whitespace-separated word of `raw` that holds an ASCII digit:
/// the volume figure of a `wpctl get-volume` line.
pub open spec fn volume_token_text(raw: Seq<char>) -> Option<Seq<char>> {
    first_with_digit(words(raw))
}

/// The first whitespace-separated word of `raw` that holds an ASCII digit.
pub fn volume_token(raw: &str) -> (r: Option<String>)
    ensures
        match r {
            None => volume_token_text(raw@) is None,
            Some(t) => volume_token_text(raw@) == Some(t@),
        },
{
    let chars = chars_of(raw);
    let mut pos: usize = 0;
    assert(chars@.skip(0) =~= chars@);
    while pos < chars.len()
        invariant
            chars@ == raw@,
            pos <= chars@.len(),
            first_with_digit(words(chars@.skip(pos as int))) == volume_token_text(raw@),
        decreases chars@.len() - pos,
    {
        if is_whitespace(chars[pos]) {
            assert(chars@.skip(pos as int)[0] == chars@[pos as int]);
            assert(chars@.skip(pos as int).drop_first() =~= chars@.skip(pos + 1));
            pos = pos + 1;
        } else {
            let e = find_word_end(&chars, pos);
            let ghost w = chars@.subrange(pos as int, e as int);
            let ghost rest = words(chars@.skip(e as int));
            assert((seq![w] + rest)[0] == w);
            assert((seq![w] + rest).drop_first() =~= rest);
            if range_has_ascii_digit(&chars, pos, e) {
                return Some(string_from_range(&chars, pos, e));
            }
            pos = e;
        }
    }
    assert(chars@.skip(pos as int) =~= seq![]);
    None
}

/// The captured `wpctl get-volume` line and its volume figure.
#[derive(Clone, Debug)]
pub struct VolumeReading {
    pub raw: String,
    pub token: Option<String>,
}

/// The figure as plain text.
pub open spec fn token_view(t: Option<String>) -> Option<Seq<char>> {
    match t {
        Some(s) => Some(s@),
        None => None,
    }
}

/// Captures the `wpctl get-volume` output of `target` and picks out its
/// volume figure.
pub fn read_volume(target: Target, spawned: SpawnResult) -> (r: AudioResult<VolumeReading>)
    ensures
        match capture_outcome(audio_info_command_text(target), spawned) {
            Err(e) => r matches Err(x) && x@ == e,
            Ok(raw) => r matches Ok(v) && v.raw@ == raw && token_view(v.token)
                == volume_token_text(raw),
        },
{
    let cmd = audio_info_command(target);
    let raw = run_capture(&cmd, spawned)?;
    let token = volume_token(raw.as_str());
    Ok(VolumeReading { raw, token })
}

/// The error of a volume reading whose figure is missing or not a number.
pub open spec fn volume_parse_error(target: Target, raw: Seq<char>) -> ErrorText {
    ("parse "@ + ascii_lower(target.title_text()) + " volume"@, "unexpected output: "@ + trim(raw))
}

/// What `read_audio_info` gives for a reading whose figure came to `percent`.
pub open spec fn audio_info_outcome(target: Target, raw: Seq<char>, percent: Option<u32>) -> Result<
    (u32, bool),
    ErrorText,
> {
    match percent {
        None => Err(volume_parse_error(target, raw)),
        Some(p) => Ok((p, contains_text(raw, "[MUTED]"@))),
    }
}

/// A volume result as plain values: `(percent, muted)` or the error text.
pub open spec fn info_view(r: AudioResult<AudioInfo>) -> Result<(u32, bool), ErrorText> {
    match r {
        Ok(info) => Ok((info.volume_percent, info.muted)),
        Err(e) => Err(e@),
    }
}

/// What `read_audio_info` gives: the reading's error, or the volume and mute
/// state that the reading and its figure in percent give.
pub open spec fn audio_info_result(
    target: Target,
    reading: AudioResult<VolumeReading>,
    percent: Option<u32>,
) -> Result<(u32, bool), ErrorText> {
    match reading {
        Err(e) => Err(e@),
        Ok(v) => if v.token is None {
            Err(volume_parse_error(target, v.raw@))
        } else {
            audio_info_outcome(target, v.raw@, percent)
        },
    }
}

/// The volume and mute state of `target` from a reading. `percent` is the
/// reading's figure scaled to percent and rounded, or `None` when the figure
/// was not a number. A reading without a figure is a parse error whatever
/// `percent` says. Muted exactly when the output says `[MUTED]`.
pub fn read_audio_info(target: Target, reading: AudioResult<VolumeReading>, percent: Option<u32>) -> (r:
    AudioResult<AudioInfo>)
    ensures
        info_view(r) == audio_info_result(target, reading, percent),
        reading matches Ok(v) ==> (v.token is None ==> info_view(r) == Err::<(u32, bool), ErrorText>(
            volume_parse_error(target, v.raw@),
        )),
{
    let reading = reading?;
    let percent = match reading.token {
        Some(_) => percent,
        None => None,
    };
    match percent {
        None => {
            let lower = to_ascii_lower(target.title());
            Err(
                AudioError::new(
                    concat3("parse ", lower.as_str(), " volume"),
                    concat2("unexpected output: ", trimmed(reading.raw.as_str()).as_str()),
                ),
            )
        },
        Some(volume_percent) => {
            let muted = text_contains(reading.raw.as_str(), "[MUTED]");
            Ok(AudioInfo { volume_percent, muted })
        },
    }
}

/// Both sides' volume state, the output side first, each from its own
/// reading and figure: a failure on one side leaves the other as it reads.
pub fn load_audio_snapshot(
    sink_reading: AudioResult<VolumeReading>,
    sink_percent: Option<u32>,
    source_reading: AudioResult<VolumeReading>,
    source_percent: Option<u32>,
) -> (s: AudioSnapshot)
    ensures
        info_view(s.sink) == audio_info_result(Target::Sink, sink_reading, sink_percent),
        info_view(s.source) == audio_info_result(Target::Source, source_reading, source_percent),
{
    let sink = read_audio_info(Target::Sink, sink_reading, sink_percent);
    let source = read_audio_info(Target::Source, source_reading, source_percent);
    AudioSnapshot { sink, source }
}

// ---------------------------------------------------------------------------
// Reading the devices
// ---------------------------------------------------------------------------

pub open spec fn default_device_command_text(target: Target) -> CommandText {
    ("pactl"@, target.default_device_args_text())
}

pub open spec fn list_devices_command_text(target: Target) -> CommandText {
    ("pactl"@, target.list_device_args_text())
}

/// `pactl get-default-sink` / `pactl get-default-source`.
pub fn default_device_command(target: Target) -> (c: CommandLine)
    ensures
        c@ == default_device_command_text(target),
{
    let args = target.default_device_args();
    command_line("pactl", &args)
}

/// `pactl list sinks` / `pactl list sources`.
pub fn list_devices_command(target: Target) -> (c: CommandLine)
    ensures
        c@ == list_devices_command_text(target),
{
    let args = target.list_device_args();
    command_line("pactl", &args)
}

/// What `get_default_device_id` gives: the trimmed output, which must not be
/// empty.
pub open spec fn default_id_outcome(target: Target, spawned: SpawnResult) -> Result<
    Seq<char>,
    ErrorText,
> {
    match capture_outcome(default_device_command_text(target), spawned) {
        Err(e) => Err(e),
        Ok(out) => if trim(out).len() == 0 {
            Err(
                (
                    "read default "@ + ascii_lower(target.title_text()) + " device"@,
                    "pactl returned an empty device id"@,
                ),
            )
        } else {
            Ok(trim(out))
        },
    }
}

/// The id of the default device of `target`, from the output of
/// `default_device_command(target)`.
pub fn get_default_device_id(target: Target, spawned: SpawnResult) -> (r: AudioResult<String>)
    ensures
        text_view(r) == default_id_outcome(target, spawned),
{
    let cmd = default_device_command(target);
    let out = run_capture(&cmd, spawned)?;
    let id = trimmed(out.as_str());
    if id.as_str().is_empty() {
        let lower = to_ascii_lower(target.title());
        return Err(
            AudioError::new(
                concat3("read default ", lower.as_str(), " device"),
                String::from_str("pactl returned an empty device id"),
            ),
        );
    }
    Ok(id)
}

/// What `list_devices` gives.
pub open spec fn list_outcome(target: Target, spawned: SpawnResult) -> Result<
    Seq<EntryText>,
    ErrorText,
> {
    match capture_outcome(list_devices_command_text(target), spawned) {
        Err(e) => Err(e),
        Ok(out) => Ok(device_entries(out, target)),
    }
}

/// The devices of `target`, from the output of `list_devices_command(target)`.
pub fn list_devices(target: Target, spawned: SpawnResult) -> (r: AudioResult<Vec<DeviceEntry>>)
    ensures
        match list_outcome(target, spawned) {
            Err(e) => r matches Err(x) && x@ == e,
            Ok(es) => r matches Ok(v) && entries_text(v@) == es,
        },
{
    let cmd = list_devices_command(target);
    let raw = run_capture(&cmd, spawned)?;
    Ok(parse_device_entries(raw.as_str(), target))
}

/// Where reading the device state of one side stands: the default device is
/// asked for first, then the device list; a failure ends the read.
#[derive(Debug)]
pub enum DeviceRead {
    AwaitDefault,
    AwaitList(String),
    Done(AudioResult<DeviceState>),
}

/// A device read as plain text.
pub enum DeviceReadText {
    AwaitDefault,
    AwaitList(Seq<char>),
    Done(Result<DeviceStateText, ErrorText>),
}

pub open spec fn device_read_view(r: DeviceRead) -> DeviceReadText {
    match r {
        DeviceRead::AwaitDefault => DeviceReadText::AwaitDefault,
        DeviceRead::AwaitList(id) => DeviceReadText::AwaitList(id@),
        DeviceRead::Done(Ok(s)) => DeviceReadText::Done(Ok(s@)),
        DeviceRead::Done(Err(e)) => DeviceReadText::Done(Err(e@)),
    }
}

/// The next step of a device read, given what the last command handed back.
pub open spec fn device_read_next(target: Target, state: DeviceReadText, spawned: SpawnResult) -> DeviceReadText {
    match state {
        DeviceReadText::AwaitDefault => match default_id_outcome(target, spawned) {
            Ok(id) => DeviceReadText::AwaitList(id),
            Err(e) => DeviceReadText::Done(Err(e)),
        },
        DeviceReadText::AwaitList(id) => match list_outcome(target, spawned) {
            Ok(es) => DeviceReadText::Done(Ok((id, es))),
            Err(e) => DeviceReadText::Done(Err(e)),
        },
        DeviceReadText::Done(r) => DeviceReadText::Done(r),
    }
}

/// The device state of one side as a whole read gives it: the default
/// device's id and the device list, or the first error.
pub open spec fn device_state_outcome(
    target: Target,
    default_spawned: SpawnResult,
    list_spawned: SpawnResult,
) -> Result<DeviceStateText, ErrorText> {
    match default_id_outcome(target, default_spawned) {
        Err(e) => Err(e),
        Ok(id) => match list_outcome(target, list_spawned) {
            Err(e) => Err(e),
            Ok(es) => Ok((id, es)),
        },
    }
}

/// The command a device read waits on, or `None` once it is done.
pub fn device_read_command(target: Target, state: &DeviceRead) -> (c: Option<CommandLine>)
    ensures
        match device_read_view(*state) {
            DeviceReadText::AwaitDefault => c matches Some(x) && x@ == default_device_command_text(target),
            DeviceReadText::AwaitList(_) => c matches Some(x) && x@ == list_devices_command_text(target),
            DeviceReadText::Done(_) => c is None,
        },
{
    match state {
        DeviceRead::AwaitDefault => Some(default_device_command(target)),
        DeviceRead::AwaitList(_) => Some(list_devices_command(target)),
        DeviceRead::Done(_) => None,
    }
}

/// Advances a device read with the outcome of the command it waited on.
pub fn read_device_state(target: Target, state: DeviceRead, spawned: SpawnResult) -> (next:
    DeviceRead)
    ensures
        device_read_view(next) == device_read_next(target, device_read_view(state), spawned),
{
    match state {
        DeviceRead::AwaitDefault => match get_default_device_id(target, spawned) {
            Ok(id) => DeviceRead::AwaitList(id),
            Err(e) => DeviceRead::Done(Err(e)),
        },
        DeviceRead::AwaitList(current_id) => match list_devices(target, spawned) {
            Ok(entries) => DeviceRead::Done(Ok(DeviceState { current_id, entries })),
            Err(e) => DeviceRead::Done(Err(e)),
        },
        DeviceRead::Done(r) => DeviceRead::Done(r),
    }
}

/// A device result as plain text.
pub open spec fn device_result_view(r: AudioResult<DeviceState>) -> Result<DeviceStateText, ErrorText> {
    match r {
        Ok(s) => Ok(s@),
        Err(e) => Err(e@),
    }
}

/// The command a device read of `target` waits on, as text.
pub open spec fn device_read_command_text(target: Target, state: DeviceReadText) -> Option<CommandText> {
    match state {
        DeviceReadText::AwaitDefault => Some(default_device_command_text(target)),
        DeviceReadText::AwaitList(_) => Some(list_devices_command_text(target)),
        DeviceReadText::Done(_) => None,
    }
}

/// Reading the device state of both sides: the output side is read to its
/// end first, then the input side, whatever the output side gave.
#[derive(Debug)]
pub struct DeviceSnapshotRead {
    pub sink: DeviceRead,
    pub source: DeviceRead,
}

/// A two-sided read as plain text: `(output side, input side)`.
pub type SnapshotReadText = (DeviceReadText, DeviceReadText);

pub open spec fn snapshot_read_view(r: DeviceSnapshotRead) -> SnapshotReadText {
    (device_read_view(r.sink), device_read_view(r.source))
}

/// The side a two-sided read waits on and its command, or `None` once both
/// sides are done.
pub open spec fn snapshot_command_text(read: SnapshotReadText) -> Option<(Target, CommandText)> {
    if !(read.0 is Done) {
        match device_read_command_text(Target::Sink, read.0) {
            Some(c) => Some((Target::Sink, c)),
            None => None,
        }
    } else if !(read.1 is Done) {
        match device_read_command_text(Target::Source, read.1) {
            Some(c) => Some((Target::Source, c)),
            None => None,
        }
    } else {
        None
    }
}

/// A two-sided read after the outcome of the command it waited on: only the
/// side that waited moves.
pub open spec fn snapshot_read_next(read: SnapshotReadText, spawned: SpawnResult) -> SnapshotReadText {
    if !(read.0 is Done) {
        (device_read_next(Target::Sink, read.0, spawned), read.1)
    } else {
        (read.0, device_read_next(Target::Source, read.1, spawned))
    }
}

/// A two-sided read that has not run any command yet.
pub fn start_device_snapshot() -> (r: DeviceSnapshotRead)
    ensures
        snapshot_read_view(r) == (DeviceReadText::AwaitDefault, DeviceReadText::AwaitDefault),
{
    DeviceSnapshotRead { sink: DeviceRead::AwaitDefault, source: DeviceRead::AwaitDefault }
}

fn read_is_done(r: &DeviceRead) -> (done: bool)
    ensures
        done == (device_read_view(*r) is Done),
{
    match r {
        DeviceRead::Done(_) => true,
        _ => false,
    }
}

/// The side a two-sided read waits on and the command to run for it.
pub fn device_snapshot_command(read: &DeviceSnapshotRead) -> (c: Option<(Target, CommandLine)>)
    ensures
        match snapshot_command_text(snapshot_read_view(*read)) {
            None => c is None,
            Some((t, text)) => c matches Some((t2, line)) && t2 == t && line@ == text,
        },
{
    if !read_is_done(&read.sink) {
        match device_read_command(Target::Sink, &read.sink) {
            Some(c) => Some((Target::Sink, c)),
            None => None,
        }
    } else if !read_is_done(&read.source) {
        match device_read_command(Target::Source, &read.source) {
            Some(c) => Some((Target::Source, c)),
            None => None,
        }
    } else {
        None
    }
}

/// Advances a two-sided read with the outcome of the command it waited on.
pub fn read_device_snapshot(read: DeviceSnapshotRead, spawned: SpawnResult) -> (next:
    DeviceSnapshotRead)
    ensures
        snapshot_read_view(next) == snapshot_read_next(snapshot_read_view(read), spawned),
{
    if !read_is_done(&read.sink) {
        DeviceSnapshotRead {
            sink: read_device_state(Target::Sink, read.sink, spawned),
            source: read.source,
        }
    } else {
        DeviceSnapshotRead {
            sink: read.sink,
            source: read_device_state(Target::Source, read.source, spawned),
        }
    }
}

/// The device state of both sides, once both reads are done.
pub fn load_device_snapshot(read: DeviceSnapshotRead) -> (s: Option<DeviceSnapshot>)
    ensures
        s is Some <==> (device_read_view(read.sink) is Done && device_read_view(read.source) is Done),
        s matches Some(snap) ==> (DeviceReadText::Done(device_result_view(snap.sink))
            == device_read_view(read.sink) && DeviceReadText::Done(device_result_view(snap.source))
            == device_read_view(read.source)),
{
    match (read.sink, read.source) {
        (DeviceRead::Done(sink), DeviceRead::Done(source)) => Some(DeviceSnapshot { sink, source }),
        _ => None,
    }
}

// ---------------------------------------------------------------------------
// Changing state
// ---------------------------------------------------------------------------

pub open spec fn set_default_command_text(target: Target, device_id: Seq<char>) -> CommandText {
    (
        "pactl"@,
        seq![
            match target {
                Target::Sink => "set-default-sink"@,
                Target::Source => "set-default-source"@,
            },
            device_id,
        ],
    )
}

/// `pactl set-default-sink ID` / `pactl set-default-source ID`.
pub fn set_default_device_command(target: Target, device_id: &str) -> (c: CommandLine)
    ensures
        c@ == set_default_command_text(target, device_id@),
{
    let verb = match target {
        Target::Sink => "set-default-sink",
        Target::Source => "set-default-source",
    };
    let args = [verb, device_id];
    let c = command_line("pactl", &args);
    assert(c@.1 =~= set_default_command_text(target, device_id@).1);
    c
}

/// Makes `device_id` the default device of `target`: succeeds exactly when
/// `set_default_device_command(target, device_id)` started and exited with
/// code zero.
pub fn set_default_device(target: Target, device_id: &str, spawned: SpawnResult) -> (r: AudioResult<
    (),
>)
    ensures
        error_view(r) == status_outcome(set_default_command_text(target, device_id@), spawned),
{
    let cmd = set_default_device_command(target, device_id);
    run_status(&cmd, spawned)
}

pub open spec fn set_volume_command_text(target: Target, volume: Seq<char>) -> CommandText {
    ("wpctl"@, seq!["set-volume"@, "-l"@, "1.5"@, target.object_name_text(), volume])
}

/// `wpctl set-volume -l 1.5 OBJECT VOLUME`, where `volume` is the volume as a
/// fraction written with two decimals.
pub fn set_volume_command(target: Target, volume: &str) -> (c: CommandLine)
    ensures
        c@ == set_volume_command_text(target, volume@),
{
    let args = ["set-volume", "-l", "1.5", target.object_name(), volume];
    let c = command_line("wpctl", &args);
    assert(c@.1 =~= set_volume_command_text(target, volume@).1);
    c
}

/// Sets the volume of `target`: succeeds exactly when
/// `set_volume_command(target, volume)` started and exited with code zero.
pub fn set_volume(target: Target, volume: &str, spawned: SpawnResult) -> (r: AudioResult<()>)
    ensures
        error_view(r) == status_outcome(set_volume_command_text(target, volume@), spawned),
{
    let cmd = set_volume_command(target, volume);
    run_status(&cmd, spawned)
}

pub open spec fn toggle_mute_command_text(target: Target) -> CommandText {
    ("wpctl"@, target.mute_args_text())
}

/// `wpctl set-mute OBJECT toggle`.
pub fn toggle_mute_command(target: Target) -> (c: CommandLine)
    ensures
        c@ == toggle_mute_command_text(target),
{
    let args = target.mute_command();
    command_line("wpctl", &args)
}

/// Toggles mute on `target`: succeeds exactly when
/// `toggle_mute_command(target)` started and exited with code zero.
pub fn toggle_mute(target: Target, spawned: SpawnResult) -> (r: AudioResult<()>)
    ensures
        error_view(r) == status_outcome(toggle_mute_command_text(target), spawned),
{
    let cmd = toggle_mute_command(target);
    run_status(&cmd, spawned)
}

} // verus!
