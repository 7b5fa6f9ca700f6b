# core-daemon

The logic of the AI-OS core daemon as a verified library: tool routing of chat
messages, the speech provider's decisions, the events the daemon publishes,
which files can have their text extracted, and how stored index scopes and
search results are read back.

- `src/` is the library, verified with Verus. Each public function states in
  its contract what it returns; laws that relate several functions are public
  proof functions (`lemma_*`).
- `app/` is the daemon around it: the HTTP and WebSocket server, the SQLite
  scope store, the tantivy keyword index, file reading and running programs.
- `tests/` runs the library on concrete values.
