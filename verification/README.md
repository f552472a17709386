# kiro_accounts

A verified library that keeps Kiro / AWS CodeWhisperer logins: it decides how
stored accounts are read from the accounts table, matched and saved, how the
desktop client's own login files are imported and written back, how tokens are
refreshed, how usage answers and JWT claims are read, and when overage billing
is asked for.

- `src/` is the library, checked by Verus. Multi-step operations that need
  outside work (HTTP calls, database statements, file reads, JSON parsing) are
  written as steps: each step function takes what the previous outside call
  returned and says what to do next.
- `app/` is the command-line program around it: SQLite, HTTP, files, and the
  conversion between serde_json documents and the library's `JsonValue`.
- `tests/` exercises the library on concrete values.
