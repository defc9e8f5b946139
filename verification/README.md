# auto_dark_mode

Scheduling and theme-switching logic of a Windows light/dark theme switcher, verified with
Verus.

- `src/` is the verified library: reading and writing `HH:MM` times (`timetext`), the
  settings (`config`), the schedule's decisions (`scheduler`: whether it should be light,
  the next switch, today's sun times, the end of a manual override), what a theme switch
  writes and how it reads back (`theme`), the login entry (`autostart`), and the calendar
  and local time zone read through chrono (`clock`).
- `app/` runs it: the settings file (JSON), the sunrise/sunset calculator, the Windows
  registry and shell messages, the background scheduler thread and a small command line.
- `tests/` exercises the library on concrete values.
