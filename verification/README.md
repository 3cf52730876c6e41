# project_tui

A terminal client for GitHub Projects (v2): choose a project, browse its
tickets, open one to read its details.

- `src/` is the verified library. `src/app/` models the screens and their key
  bindings as a state machine (`AppState::handle_key`, with the laws in
  `app/laws.rs`); `github/` holds the token check, the GraphQL client's
  request header and answer handling, and the conversion of answers into
  projects and tickets (laws in `github/laws.rs`); `config/` the
  configuration model and its error messages; `ui/view.rs` the text each
  screen shows; `text.rs` decimal numbers and joined lists.
- `app/` is the terminal program: configuration file access, the network
  exchange, terminal drawing and the event loop.
- `tests/` exercises the library on concrete values.

Key bindings: `j`/`↓` and `k`/`↑` move, `Enter` opens, `Esc` goes back,
`e` edits a ticket, `q` or `Ctrl+C` quits. While editing, typed characters
(`q` among them) and Backspace change the field in focus, `Tab`/`Shift+Tab`
move between title, description and status, `Ctrl+S` saves and `Esc`
cancels. Saving sends the title and description, then sets the ticket's
item in the project to the Status option of that name (an empty status
clears it).
