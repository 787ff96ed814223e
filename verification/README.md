# sound_control_popup

A small layer-shell popup for Wayland desktops that shows and controls the
default audio output and input (volume, mute, default device) through `wpctl`
and `pactl`.

* `src/` is the library, verified with Verus:
  * `text.rs` — whitespace, trimming, line and word splitting, substring
    search and decimal rendering over characters;
  * `error.rs` — the error every operation reports;
  * `command.rs` — command lines and their outcomes as plain values, and how
    an outcome becomes a result or an error;
  * `devices.rs` — the parser for `pactl list sinks|sources`;
  * `audio.rs` — the commands for each operation and what is read from them;
  * `view.rs` — what each part of the popup shows, how background work is
    followed up, and when the popup closes;
  * `laws.rs` — properties that hold across the library's functions.
* `app/` is the GTK 4 front end: it builds the window, runs the commands the
  library chooses and shows what the library decides. It also keeps the
  floating-point parts: scaling the `wpctl` volume figure to percent, writing
  a slider value as a fraction, and the fade-in.
* `tests/` runs the library on concrete inputs.
