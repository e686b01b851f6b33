# mycelial

Verified core of the mycelial configuration types and of the Bacalhau
destination section.

- `src/config.rs`, `src/pipe_config.rs`: the configuration and request types
  that the daemon and the server share; a pipe configuration defaults to
  workspace 1.
- `src/config_map.rs`: the configuration map of a section, with its lookup
  and update laws.
- `src/constructor.rs`: building the Bacalhau section from its configuration,
  with every error and the order in which they are checked.
- `src/payload.rs`, `src/frame.rs`: the payload as a one-column data frame and
  the message that hands out its payload and acknowledgement once each.
- `src/section_loop.rs`: the section's event loop as a transition function
  from state and event to next state and action, with laws over whole runs.
- `app/`: serde and sqlx copies of the types and the glue to the section
  runtime, which performs each action and hands back the event.
