# rushmap_db

The probe database of the rushmap desktop application, with its decisions
verified by Verus.

`src/` (verified):

- `sql` – statements as SQL text plus positional parameter values; decimal
  formatting.
- `models` – the records the database stores and the scan results that are
  recorded.
- `record` – the statements that record a port scan, host scan, ping or
  traceroute.
- `history` – the probe log search (placeholder list, host pattern), the list
  of probed hosts, the recent-probe query, probe statistics.
- `map` – reading and saving network maps.
- `user` – hosts, services, groups and tags registered by the user.
- `batch` – the driver protocol of a write: statement order, summed row
  counts, stop on the first failure, commit or rollback.
- `hostname` – host name validation.
- `setup` – when the bundled database file is copied into place.

`app/` opens the SQLite file with rusqlite, runs the statements and decodes
rows; `tests/` exercises the library on concrete values.
