# KaikeiVoice

The core of a voice-input desktop application for accountants, written in Rust
with contracts that Verus proves.

- `src/` decides: licensing and its grace period, the machine's identifier, model
  downloads and their progress reports, which files of a model are unpacked,
  starting and stopping speech servers, their log, and the formats in which
  recordings and requests are handed over. What happens to a command that waits
  for the outside (a dialog, a download, a server) is a step function from an
  event to the next action.
- `app/` acts: it shows dialogs, reads and writes files, runs processes, talks to
  servers, and hands back to `src/` what came of it.
- `tests/` runs the library on concrete values.

The calls out of `src/` go to `serde_json` (JSON values), `hound` (WAVE files),
`uuid` (random identifiers) and the standard library. Their contracts are stated
where they are called and are the only part that is not proved.
