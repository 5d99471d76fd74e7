# cdrive_cleaner

The core of a Windows system-drive cleaner, written in Verus: every rule
that decides what is scanned, how it is grouped and scored, what the safety
guard lets through, what a clean-up reports, which restore point undoes it
(copying the files back is left to the application), how the audit log is
sealed, and how AI replies and plugin results are read, is an
executable function with a contract that Verus proves.

## Layout

- `src/` — the verified library.
  - `models/` — scan, clean-up, settings, plugin and system records.
  - `services/` — the scanner, the file walker's rules, the safety guard,
    the clean-up engine, the evaluation scores, the AI review rules, the
    plugin registry, the change journal reader, fingerprints, signatures
    and the software detector.
  - `plugins/` — the clean-up plugins and what they share.
  - `store/` — the audit log's sealing and Base64 text.
  - `text.rs` — string operations with their specifications.
  - `commands.rs` — the decisions behind the user's requests.
- `tests/` — tests of the library on concrete values.
- `app/` — the application around it: SQLite storage, walking and removing
  files, HTTP requests to AI services, Windows system calls, and the
  floating-point scores and progress figures.
