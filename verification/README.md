# ssh-mcp-client

A desktop SSH client for one's own servers that also serves its SSH sessions
to an AI assistant over MCP, with an audit log and a mandatory confirmation
step before destructive commands.

- `src/` is the verified library (Verus): the destructive-command screen, the
  one-time confirmation tokens with their five-minute validity, the saved
  server profiles, server and directory listings, audit rows, the
  trust-on-first-use host key check and the terminal relay decisions.
- `app/` is the surrounding I/O: profile files, the system keychain, the
  SQLite audit log, SSH/SFTP sessions, the GUI command layer and the
  embedded MCP server on 127.0.0.1.
- `tests/` exercises the library on concrete values.
