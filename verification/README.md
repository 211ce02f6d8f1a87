# rat_salsa2

A small application framework for terminal user interfaces.

- `src/` is the verified library: the `Control` results of event handling and
  their conversions from widget outcomes (`control`), the first-in first-out
  queue of extra results (`queue`), the timer and repaint event data
  (`timer`, `event`), and the event loop's decisions as a state machine
  (`framework`): from its state and a report on the last command to its next
  state and command, with the laws it keeps.
- `app/` drives that state machine against the terminal (crossterm, ratatui),
  the worker threads (crossbeam channels) and the application's handlers, and
  holds the application-facing traits and contexts.
- `tests/` runs the library on concrete scenarios.
