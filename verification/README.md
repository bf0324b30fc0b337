# Nexus Core: Colony Manager

A colony-management game. The rules of the colony live in the verified
library under `src/`, written in Verus with their contracts:

- `components::building`: structures and the tier tables of each kind.
- `game_state`: the colony's state, construction, upgrades, workforce,
  activation, removal, the Administrative Spire and the Legacy Structure,
  the civic and housing bookkeeping, the event log, and the invariant that
  every command keeps (`consistency`), with the laws that relate commands
  (`laws`).
- `systems::research`, `first_hour_tooltips`, `alerts`: research ticks, the
  first-hour tutorial, and the colony's alerts.
- `ui`: what the dashboard, colony status and research panels show.

`app/` is the game around it: a headless Bevy application driven from the
console, the floating-point simulation (happiness, population growth,
service coverage), and saving to `save.json`.
