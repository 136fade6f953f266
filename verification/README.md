# omen_hub

The control logic of OMEN-HUB, a power, fan and tray manager for HP OMEN
laptops on Linux, written in Verus and proved against its contracts.

## Layout

- `src/` — the verified library.
  - `power_model.rs`: the three power modes (Work, Game-Battery, Game), the
    EPP preferences, their names and their hardware definitions.
  - `cpu_energy.rs`: cpufreq discovery, CPU boost and per-policy EPP
    control as step-by-step procedures (write with readback, snapshot,
    restore, the transactional multi-policy EPP write with rollback, and the
    bounded wait for cpufreq governors).
  - `power_engine.rs`: ACPI platform profile discovery and writes, and the
    engine's transactional mode transition (snapshot, profile, governor
    wait, EPP, boost, verification, commit, rollback on failure).
  - `power_service.rs`: the power service's decisions: legacy profile names,
    saved settings and their limits, available profiles, game detection and
    the game-profile monitor's memory, RAPL plans, profile detection.
  - `fan.rs`: fan percentage and duty arithmetic, hwmon discovery, the
    verified fan mode and speed writes, and the fan service's state.
  - `cli.rs`, `tray.rs`, `client.rs`, `assets.rs`: what the command-line
    client, the tray and the GUI client show and decide.
  - `automation.rs`, `ec.rs`: AC adapter tracking and the inert EC report.
  - `sysfs.rs`: the vocabulary of steps (read, write, probe, sleep) that the
    procedures ask their caller to perform; `text.rs`: verified string
    helpers.
- `tests/` — scenario tests; `tests/engine.rs` drives the procedures over an
  in-memory sysfs tree.
- `app/` — the program around the library: the D-Bus daemon, the
  command-line client, the tray, and the blocking client calls of the GUI.
  It performs the steps that the library asks for on the real filesystem.
