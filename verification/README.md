# rusty_jack

A verified library for routing macOS audio to HDMI/DisplayPort outputs: choosing
the output from the configured preferences, switching the default output and
its volume, keeping volume control available (eqMac or the native driver),
waking an attached ScalarWebAPI device, and installing, upgrading, pausing and
resuming the daemon's LaunchAgent.

Layout:

- `src/` holds the library, written in Verus. Each public function carries a
  contract, and the decisions of the daemon tick, the picker, the LaunchAgent
  steps, the eqMac and driver steps and the text formats are proved against it.
  Outside work (CoreAudio, `launchctl`, files, processes) reaches the library
  through small traits (`AudioHal`, `DaemonHooks`, `AgentSetup`,
  `VolumeBackend`, `FlagPoller`) or closures; the logging wrappers around them
  (`HookLog`, `AgentLog`, `VolumeLog`, `PollLog`) keep a ghost record of every
  call, so contracts can say which calls were made, with which arguments, and
  what became of their results.
  The clauses of `AudioHal` that speak of its model bind only an implementation
  whose `obeys_model()` is true. `MockHal` in `src/` keeps the model; the
  CoreAudio and stub HALs in `app/` keep the default (`false`), so for the
  shipped program the proofs of the HAL-calling functions rest on the outcome
  of each call as it comes back, not on a model of the device list.
- JSON is read and rendered by `serde_json` behind two trusted wrappers
  (`json::parse_json`, `json::pretty_json`); the key walks over the parsed
  value (the `system_profiler` display list, a driver bundle's `Info.plist`
  as `plutil` prints it in JSON, the canonical config text) are verified.
- `tests/` runs the library on concrete inputs.
- `app/` is the command-line program: argument handling, CoreAudio access,
  process and file I/O, the daemon loop and its rotated log file, calling the
  library for every decision.
