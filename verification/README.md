# sutra (verified core)

The decision logic of the sutra dev-environment dashboard, proved with Verus.

- `src/state.rs` — unit states, units and environments.
- `src/registry.rs` — the state folder's formats: which files are meta and status files, and what they say.
- `src/snapshot.rs` — one entry per unit across all environments, the last listing winning.
- `src/notifier.rs` — transition detection, per-unit and global mute and notification toggles, and the batched sound and speech.
- `src/sound.rs`, `src/text.rs` — sound priority, setting keys and joined utterances.
- `src/dashboard.rs` — how each dashboard event changes the view state and which outside action it calls for.
- `src/cards.rs` — what each screen, environment card and unit row shows.
- `src/cli.rs` — which front end to start, and the arguments of the backgrounded copy.
- `src/laws.rs` — properties that relate several calls or settings.
- `app/` — the command line and a windowless monitor: every two seconds it reloads `~/.dev-runner/`, and the transitions the library finds post notifications and play sound and speech (on macOS; elsewhere the decisions are made but nothing is voiced). This build draws no window and has no terminal front end.
