# foxsur

Reconciles the instruments that crypto exchanges (Paxos, Deribit, Kraken) list with
the instruments stored in a Postgres database, prepares the rows of the missing ones,
and reports the counts to Slack.

- `src/` is the verified library: the string-keyed maps and sets it works with
  (`collections`), text helpers (`text`), regular expressions (`pattern`), the
  exchange listings and how they are matched (`instruments`), the sources and their
  registry (`sources`), database values (`database`), reports (`messaging`) and the
  program's arguments (`cli`, `options`).
- `app/` is the program around it: command line parsing, HTTP calls to the exchanges
  and to Slack, database queries, threads.
- `tests/` runs the library on concrete values.
