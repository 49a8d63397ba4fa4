# nu_plugin_audio (verified playback logic)

The logic behind the `sound play` Nushell command, written in Verus and
proved against its contracts:

- `src/icons.rs`: glyph sets (Nerd Font, Unicode, ASCII) and the volume icon tiers.
- `src/text.rs`: decimal numbers, `M:SS` durations, string comparison and search.
- `src/width.rs`, `src/ansi.rs`: display widths (`unicode-width`) and terminal
  escape sequences (`crossterm`), behind trusted wrappers.
- `src/bar.rs`: progress and volume bars, and the split of free columns between them.
- `src/marquee.rs`: the scrolling header window.
- `src/progress.rs`: the whole progress frame, by terminal-width tier.
- `src/playback.rs`: the playback loop's state machine (keys, volume, seeking,
  redraw cadence, header scrolling).
- `src/setup.rs`: glyph-set resolution, track length, initial volume.
- `src/command.rs`: the command's name, help text and examples.

Durations are nanoseconds (`u64`); volumes are thousandths (`1000` is normal).

`app/` holds the Nushell plugin glue and the audio/terminal I/O (rodio,
lofty, crossterm events, nu-plugin), which hands plain values to the library.
