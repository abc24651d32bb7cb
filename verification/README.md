# icalctl

A command-line tool for the Calendar database of a Mac, reached through
EventKit: list, search, add, update, delete and batch-create events, check
permissions and keep a small configuration file. The library also holds the
rules for enriching flight events with live status from FlightAware.

The decisions the tool makes are a library verified with Verus:

- `src/` holds the library. Every function in it carries a contract that
  Verus proves: parsing of dates and recurrence options, calendar selection,
  duplicate detection, add/update/batch planning, the reports the commands
  print, the configuration rules, the event cache, flight matching and the
  FlightAware usage ledger, and the enrichment state machine. Where a
  result depends on the Mac's clock or its local time zone (today's date, a
  naive time read without a zone name), the contracts state the possible
  outcomes rather than the one that occurs. `src/laws.rs`
  states properties that span several functions.
- `app/` is the program around it: command-line parsing, files, the
  terminal, EventKit itself (macOS only), and the JSON form of the reports.
  It reads from the outside world, hands plain values to the library, and
  performs what the library planned.
- `tests/` runs the library on concrete values.
