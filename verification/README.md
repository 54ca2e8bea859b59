# staged

The decision logic of Staged, an AI-assisted development workspace, as a
Verus library: every function in `src/` is proved against its contract, but
for a few small wrappers around outside crates, whose contracts are trusted.

- `src/text.rs`: trimming, prefixes, ASCII case folding and string building.
- `src/models.rs`: the records exchanged with the frontend and the store.
- `src/projects.rs`: project creation, repository attachment and removal.
- `src/badges.rs`: short badge names: validation, the naming prompt, reading
  the AI answer, picking the naming provider.
- `src/repos.rs`: default-branch detection (a state machine), reading
  `git log` output, marking the user's own commits.
- `src/cleanup.rs`: best-effort removal of a deleted project's branches.
- `src/workspaces.rs`: polling and starting remote workspaces.
- `src/sessions.rs`: resumed and project sessions, pull-request facts.
- `src/web.rs`: browser access: tokens, sessions, authentication, event
  frames and command routing.
- `src/startup.rs`: startup and shutdown decisions.

`app/` holds the HTTPS/WebSocket server (axum, rustls) around the library,
the environment lookups and the serialized forms of the records. Command
handlers that need the store and the git and workspace services plug into
the server through `CommandHandler` in `app/server.rs`.
