# ccusage_rho

Reads Rho's SQLite usage ledger (`$RHO_HOME/usage.sqlite3`, by default
`~/.rho/usage.sqlite3`) into usage-report entries, verified with Verus.

- `src/paths.rs`: where the ledger is looked for.
- `src/loader.rs`: from the rows a ledger query gave to report entries.
- `src/event.rs`: from one ledger event to one entry (schema check, token
  categories and extra total tokens, session and project fallbacks, cost
  source, pricing-model choice).
- `src/calendar.rs`: the UTC calendar date and time of an instant.
- `src/clock.rs`: report dates in a time zone, through jiff; date and time texts.
- `src/text.rs`: small verified string helpers.
- `src/laws.rs`: properties that span these functions.
- `app/main.rs`: the command: environment, file system, SQLite, printing.
