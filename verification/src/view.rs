//! What the popup shows, decided from plain values: the text and state of each
//! section, the device selector, how background work is followed up, and when
//! the popup closes. The widgets themselves are set by the front end.
use vstd::prelude::*;

use crate::audio::{AudioInfo, DeviceState, DeviceStateText, Target};
use crate::devices::{entries_text, DeviceEntry};
use crate::error::{error_message, AudioResult};
use crate::text::{concat2, concat3, decimal, decimal_u32};

verus! {

/// `"{percent}%"`, the level label of a section.
pub open spec fn percent_text(p: u32) -> Seq<char> {
    decimal(p as int) + "%"@
}

/// The level label for a volume in percent.
pub fn percent_label(percent: u32) -> (s: String)
    ensures
        s@ == percent_text(percent),
{
    concat2(decimal_u32(percent).as_str(), "%")
}

/// The highest value the volume slider goes to.
pub const SLIDER_MAX: u32 = 150;

impl Target {
    pub open spec fn heading_text(self) -> Seq<char> {
        self.icon_text() + "  "@ + self.title_text()
    }

    /// The heading of this side's section: its icon, two spaces, its title.
    pub fn heading(self) -> (s: String)
        ensures
            s@ == self.heading_text(),
    {
        concat3(self.icon(), "  ", self.title())
    }
}

/// What one section shows after a volume reading. `None` in `level_label`
/// or `slider_value` leaves that widget as it is.
#[derive(Debug)]
pub struct SectionView {
    pub level_label: Option<String>,
    pub slider_value: Option<u32>,
    pub controls_enabled: bool,
    pub tooltip: Option<String>,
    pub button_label: String,
    pub badge_label: String,
    pub badge_class: String,
}

pub open spec fn opt_text(o: Option<String>) -> Option<Seq<char>> {
    match o {
        Some(s) => Some(s@),
        None => None,
    }
}

/// A section view as plain text, field by field.
pub type SectionText = (
    Option<Seq<char>>,
    Option<u32>,
    bool,
    Option<Seq<char>>,
    Seq<char>,
    Seq<char>,
    Seq<char>,
);

pub open spec fn section_text(v: SectionView) -> SectionText {
    (
        opt_text(v.level_label),
        v.slider_value,
        v.controls_enabled,
        opt_text(v.tooltip),
        v.button_label@,
        v.badge_label@,
        v.badge_class@,
    )
}

/// What a section shows. A reading updates the level (unless the user is
/// dragging the slider), enables the controls and shows `Live` or `Muted`; a
/// failure shows `--`, disables the controls, shows `Unavailable` and puts
/// the error text in the tooltips.
pub open spec fn section_outcome(target: Target, result: AudioResult<AudioInfo>, adjusting: bool) -> SectionText {
    match result {
        Ok(info) => (
            if adjusting { None } else { Some(percent_text(info.volume_percent)) },
            if adjusting { None } else {
                Some(if info.volume_percent <= SLIDER_MAX { info.volume_percent } else { SLIDER_MAX })
            },
            true,
            None,
            target.status_icon_text(info.muted),
            if info.muted { "Muted"@ } else { "Live"@ },
            if info.muted { "status-muted"@ } else { "status-live"@ },
        ),
        Err(e) => (
            Some("--"@),
            None,
            false,
            Some(error_message(e@)),
            target.icon_text(),
            "Unavailable"@,
            "status-unavailable"@,
        ),
    }
}

/// What `target`'s section shows for a volume reading; `adjusting` is set
/// while the user drags the slider.
pub fn audio_section_view(target: Target, result: AudioResult<AudioInfo>, adjusting: bool) -> (v:
    SectionView)
    ensures
        section_text(v) == section_outcome(target, result, adjusting),
{
    match result {
        Ok(info) => {
            let (level_label, slider_value) = if adjusting {
                (None, None)
            } else {
                let shown = if info.volume_percent <= SLIDER_MAX {
                    info.volume_percent
                } else {
                    SLIDER_MAX
                };
                (Some(percent_label(info.volume_percent)), Some(shown))
            };
            let badge_class = if info.muted {
                "status-muted"
            } else {
                "status-live"
            };
            SectionView {
                level_label,
                slider_value,
                controls_enabled: true,
                tooltip: None,
                button_label: String::from_str(info.button_icon(target)),
                badge_label: String::from_str(info.status_label()),
                badge_class: String::from_str(badge_class),
            }
        },
        Err(e) => SectionView {
            level_label: Some(String::from_str("--")),
            slider_value: None,
            controls_enabled: false,
            tooltip: Some(e.message()),
            button_label: String::from_str(target.icon()),
            badge_label: String::from_str("Unavailable"),
            badge_class: String::from_str("status-unavailable"),
        },
    }
}

/// The choices of a device selector.
#[derive(Debug)]
pub enum DeviceChoices {
    /// The devices, and the id of the one to select.
    Devices(Vec<DeviceEntry>, String),
    /// A single line of text without an id, selected.
    Placeholder(String),
}

/// What a device selector shows.
#[derive(Debug)]
pub struct DeviceSelectView {
    pub choices: DeviceChoices,
    pub sensitive: bool,
    pub single_option: bool,
    pub tooltip: Option<String>,
}

/// The choices as plain text: the devices and the selected id, or the
/// placeholder line.
pub enum ChoicesText {
    Devices(DeviceStateText),
    Placeholder(Seq<char>),
}

pub open spec fn choices_text(c: DeviceChoices) -> ChoicesText {
    match c {
        DeviceChoices::Devices(es, id) => ChoicesText::Devices((id@, entries_text(es@))),
        DeviceChoices::Placeholder(t) => ChoicesText::Placeholder(t@),
    }
}

/// What a device selector shows: the devices with the default one selected,
/// selectable only when there is more than one; or, after a failure, a
/// disabled `Unavailable` line with the error text as tooltip.
pub open spec fn device_select_outcome(result: AudioResult<DeviceState>) -> (
    ChoicesText,
    bool,
    bool,
    Option<Seq<char>>,
) {
    match result {
        Ok(state) => (
            ChoicesText::Devices(state@),
            state.entries@.len() > 1,
            !(state.entries@.len() > 1),
            None,
        ),
        Err(e) => (ChoicesText::Placeholder("Unavailable"@), false, true, Some(error_message(e@))),
    }
}

/// What a device selector shows for a device read.
pub fn device_select_view(result: AudioResult<DeviceState>) -> (v: DeviceSelectView)
    ensures
        (choices_text(v.choices), v.sensitive, v.single_option, opt_text(v.tooltip))
            == device_select_outcome(result),
{
    match result {
        Ok(state) => {
            let multiple = state.entries.len() > 1;
            DeviceSelectView {
                choices: DeviceChoices::Devices(state.entries, state.current_id),
                sensitive: multiple,
                single_option: !multiple,
                tooltip: None,
            }
        },
        Err(e) => DeviceSelectView {
            choices: DeviceChoices::Placeholder(String::from_str("Unavailable")),
            sensitive: false,
            single_option: true,
            tooltip: Some(e.message()),
        },
    }
}

// ---------------------------------------------------------------------------
// Following up background work
// ---------------------------------------------------------------------------

/// What polling the channel of a background command gave.
#[derive(Debug)]
pub enum CommandPoll {
    /// The command finished with this result.
    Finished(AudioResult<()>),
    /// Nothing yet.
    Pending,
    /// The worker went away without a result.
    Disconnected,
}

/// What to do after polling a background command.
#[derive(Debug)]
pub struct CommandFollowUp {
    /// Clear the "user is dragging the slider" flag.
    pub release_adjusting: bool,
    /// A line to report on standard error.
    pub report: Option<String>,
    pub refresh_devices: bool,
    pub refresh_info: bool,
    pub keep_polling: bool,
}

pub open spec fn command_follow_up_outcome(poll: CommandPoll, refresh_devices: bool) -> (
    bool,
    Option<Seq<char>>,
    bool,
    bool,
    bool,
) {
    match poll {
        CommandPoll::Finished(r) => (
            true,
            match r {
                Ok(_) => None,
                Err(e) => Some("sound-control-popup: "@ + error_message(e@)),
            },
            refresh_devices,
            true,
            false,
        ),
        CommandPoll::Pending => (false, None, false, false, true),
        CommandPoll::Disconnected => (true, None, false, true, false),
    }
}

/// The follow-up of a background command: once it has finished, report a
/// failure, refresh what it may have changed and stop polling; if its worker
/// went away, refresh the volume readings and stop.
pub fn command_follow_up(poll: CommandPoll, refresh_devices: bool) -> (f: CommandFollowUp)
    ensures
        (f.release_adjusting, opt_text(f.report), f.refresh_devices, f.refresh_info, f.keep_polling)
            == command_follow_up_outcome(poll, refresh_devices),
{
    match poll {
        CommandPoll::Finished(r) => {
            let report = match r {
                Ok(_) => None,
                Err(e) => Some(concat2("sound-control-popup: ", e.message().as_str())),
            };
            CommandFollowUp {
                release_adjusting: true,
                report,
                refresh_devices,
                refresh_info: true,
                keep_polling: false,
            }
        },
        CommandPoll::Pending => CommandFollowUp {
            release_adjusting: false,
            report: None,
            refresh_devices: false,
            refresh_info: false,
            keep_polling: true,
        },
        CommandPoll::Disconnected => CommandFollowUp {
            release_adjusting: true,
            report: None,
            refresh_devices: false,
            refresh_info: true,
            keep_polling: false,
        },
    }
}

/// What polling the channel of a background refresh gave.
#[derive(Clone, Copy, Debug, PartialEq, Eq, Structural)]
pub enum RefreshPoll {
    Received,
    Pending,
    Disconnected,
}

/// What happens to a kind of background refresh (volume readings, or device
/// lists): one is asked for, or the running one is polled.
#[derive(Clone, Copy, Debug, PartialEq, Eq, Structural)]
pub enum RefreshEvent {
    Request,
    Poll(RefreshPoll),
}

/// What to do after a refresh event.
#[derive(Clone, Copy, Debug, PartialEq, Eq, Structural)]
pub struct RefreshStep {
    /// Start a refresh in the background.
    pub start: bool,
    /// Show what the refresh received.
    pub apply: bool,
    pub keep_polling: bool,
}

/// The next "refresh running" flag and what to do. A request while a refresh
/// runs does nothing; otherwise it starts one and sets the flag. A poll shows
/// what arrived and clears the flag once the result arrived or the worker
/// went away, and keeps polling while nothing arrived.
pub open spec fn refresh_next(running: bool, event: RefreshEvent) -> (bool, RefreshStep) {
    match event {
        RefreshEvent::Request => if running {
            (true, RefreshStep { start: false, apply: false, keep_polling: false })
        } else {
            (true, RefreshStep { start: true, apply: false, keep_polling: false })
        },
        RefreshEvent::Poll(RefreshPoll::Received) => (
            false,
            RefreshStep { start: false, apply: true, keep_polling: false },
        ),
        RefreshEvent::Poll(RefreshPoll::Pending) => (
            running,
            RefreshStep { start: false, apply: false, keep_polling: true },
        ),
        RefreshEvent::Poll(RefreshPoll::Disconnected) => (
            false,
            RefreshStep { start: false, apply: false, keep_polling: false },
        ),
    }
}

/// Advances the "refresh running" flag of one kind of refresh.
pub fn refresh_step(running: bool, event: RefreshEvent) -> (r: (bool, RefreshStep))
    ensures
        r == refresh_next(running, event),
{
    match event {
        RefreshEvent::Request => if running {
            (true, RefreshStep { start: false, apply: false, keep_polling: false })
        } else {
            (true, RefreshStep { start: true, apply: false, keep_polling: false })
        },
        RefreshEvent::Poll(RefreshPoll::Received) => (
            false,
            RefreshStep { start: false, apply: true, keep_polling: false },
        ),
        RefreshEvent::Poll(RefreshPoll::Pending) => (
            running,
            RefreshStep { start: false, apply: false, keep_polling: true },
        ),
        RefreshEvent::Poll(RefreshPoll::Disconnected) => (
            false,
            RefreshStep { start: false, apply: false, keep_polling: false },
        ),
    }
}

/// After a sequence of events from a given flag: the flag, and how many
/// refreshes were started less how many ended (a poll that cleared the
/// flag).
pub open spec fn refresh_trace(running: bool, events: Seq<RefreshEvent>) -> (bool, int)
    decreases events.len(),
{
    if events.len() == 0 {
        (running, 0)
    } else {
        let (next, step) = refresh_next(running, events[0]);
        let (last, rest) = refresh_trace(next, events.drop_first());
        (
            last,
            rest + (if step.start { 1int } else { 0int }) - (if running && !next { 1int } else { 0int }),
        )
    }
}

// ---------------------------------------------------------------------------
// Slider moves
// ---------------------------------------------------------------------------

/// The ticket of a new volume request: one past the last one handed out.
pub fn next_volume_request(pending: u64) -> (ticket: u64)
    requires
        pending < u64::MAX,
    ensures
        ticket == pending + 1,
{
    pending + 1
}

/// A volume request is sent only if no later slider move replaced it.
pub fn volume_request_is_latest(pending: u64, ticket: u64) -> (latest: bool)
    ensures
        latest == (pending == ticket),
{
    pending == ticket
}

/// Whether the popup closes a moment after its window lost focus: when the
/// window is still inactive and no device selector has its list open.
pub fn should_close_after_focus_loss(
    window_active: bool,
    sink_list_open: bool,
    source_list_open: bool,
) -> (close: bool)
    ensures
        close == (!window_active && !sink_list_open && !source_list_open),
{
    let list_open = sink_list_open || source_list_open;
    !window_active && !list_open
}

} // verus!
