# persona_system

The system boundary of Persona: typed window targets, focus observations, the
focus tracker that turns Niri's compositor events into observations, the `system`
command line, and the decisions of the `persona-system-daemon` socket daemon.

- `src/` is the verified library (Verus). Each public function states what it
  returns or changes. The daemon's replies are stated in the `ensures` of the request
  handler; the laws of the focus tracker, the NOTA command round trip and the counts
  over runs of mailbox messages are proof functions beside the code they speak of.
  - `target.rs`: Niri window ids, system targets, harness targets.
  - `event.rs`: focus states and observations, input-buffer states.
  - `niri.rs`: window snapshots, Niri events, and the `FocusTracker` state machine.
  - `niri_focus.rs`, `niri_focus_actor.rs`: what the tracker's mailboxes do with a
    message, and their statistics.
  - `nota.rs`, `command.rs`: the NOTA lexer, the command grammar and printer, and the
    CLI's argument rules.
  - `daemon.rs`: socket mode, frame-length check, daemon settings and its command
    line, the supervisor's counts and the request handler.
  - `error.rs`, `text.rs`: errors and their messages, decimal text.
- `app/` runs the library: `niri msg` processes and their JSON, the Kameo actors,
  files, the Unix socket and the signal frames.
- `tests/` exercises the library on concrete values.
