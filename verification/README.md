# shellagotchi

A terminal pet fed by the exit codes of your shell commands: `0` is a good
meal, anything else a risky one. A daemon keeps the pet alive over time, a
shell hook reports every command to it, and the prompt shows its mood.

The logic of the pet is a Verus library whose behaviour is stated in
contracts and proved:

- `src/pet/` — the pet's state and bounded stats, its mood, and the engine:
  time-based decay (`tick`), catching up after downtime (`catch_up`),
  feeding, cleaning, petting and hatching. Random sickness draws come from
  `rand`; each step that draws hands back a record of its draws, whose
  chance its contract fixes, and is specified exactly for every outcome.
  `tick`, `feed` and `catch_up` each have a twin that takes the outcomes.
  `src/pet/laws.rs` holds the properties that span several steps.
- `src/render/` — the prompt formats and the prompt cache, the status card,
  the sprites and the content of the live `watch` view.
- `src/shell/` — the bash, zsh and fish hook snippets.
- `src/daemon/` — the IPC message types and request dispatch, the naming of
  save files, and the systemd unit.
- `src/doctor.rs` — the `doctor` report.
- `src/text.rs` — text helpers (decimal numerals, line splitting, search).

`app/` is the program around the library: the command line, the tokio
daemon and socket server, JSON and TOML encoding, file and terminal I/O.

`tests/` exercises the library on concrete values.
