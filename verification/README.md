# podman-healthcheckd

A daemon that runs Podman healthchecks without systemd timers. It lists the running
containers at startup, keeps one check loop for each container that has a healthcheck,
follows `podman events` to start and end loops, and publishes a status file.

The daemon only acts as a clock: `podman healthcheck run` handles retries, failing
streaks and on-failure actions itself. The failures that the daemon counts are for the
status file alone.

- `src/` is a Verus library with the daemon's decisions: the check loop of a container
  (`monitor`), the register of loops (`tasks`), the status board (`status`), the event
  stream (`events`), the startup scan (`startup`), the meaning of Podman's answers
  (`podman`), and the times, paths and texts they need. Every contract is proved; the
  proof functions whose names start with `law_` state what holds across operations.
- `app/` runs the commands, timers, signals and files around the library, and reads and
  writes the JSON.
- `tests/` runs the library on concrete values.

What is taken on trust: `str::trim`, `String::from_utf8_lossy`, `Duration::from_secs`,
`Duration::from_nanos`, and the timestamp of `chrono`. The doc comment of each says what
is claimed of it.
