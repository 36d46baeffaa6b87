# omarec

A screen-recording controller for Omarchy: a per-user daemon that owns one
GPU Screen Recorder session at a time in its own systemd unit, and a client
that starts, pauses, stops and watches it over a local socket.

- `src/` is the verified library, each function with its contract: the
  recording domain and its validation, configuration profiles, capability
  policy, the recorder's probe parsers, the recorder and systemd command
  plans, the session state machine and the coordinator's decisions, output
  naming and promotion checks, the reading of `ffprobe`'s report, the
  protocol values, and what the client prints. Calls into `uuid`,
  `serde_json` and the standard library's path and text functions go
  through small trusted wrappers whose contracts are stated beside them.
- `app/` runs the processes, files and socket around the library: the
  `omarecd` daemon and the `omarec` client (one program, chosen by its name),
  the JSON and TOML forms of the library's values, the random bytes of fresh
  identifiers, and the floating-point reading of a probed duration.
- `tests/` exercises the library from outside.
