# smart_thermostat

A role-based command-line smart thermostat ("Big Home Thermostat") whose rules are
verified with Verus.

## Layout

- `src/` — the verified library: credential policy and Argon2id hashing (`auth`),
  lockout escalation (`lockout`), technician access grants (`grants`), HVAC profiles and
  the daily schedule (`profile`), role guards and edit rules (`roles`), number and date
  parsing (`parse`), the integrity manifest and session tokens (`crypto`), the security-log
  filters (`audit`), sensor ranges (`sensors`), local-time display (`localtime`) and the
  text helpers they share (`text`). Each public function states its result in `ensures`;
  the laws that span functions are public proof functions.
- `tests/` — tests that run the compiled library.
- `app/` — the program: menus, terminal UI, the SQLite database, password prompts,
  weather and sensor readings, energy reports. It calls the library for every decision.
