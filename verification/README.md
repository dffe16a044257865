# stump

Schema-migration and backup logic of a media server, written in Verus.

- `src/` is the verified library. It decides *what* to run: the SQLite
  statements that rebuild a table or retype a column (`sqlite_extra`), the
  ordered actions of the text-to-UUID migration for each database backend
  (`migration`), the queries that dump tables to JSON and restore them
  (`dumper`), and a few records (`reading_list`, `book_club_invitation`,
  `event`, `epub`). Every public function states its result exactly; the
  proof functions state the laws that tie functions together (quoting is
  reversible; on SQLite the down migration reverts exactly what the up
  migration converts, and on Postgres everything but the three columns the
  law names; a restore reads the keys a dump wrote; a full table copy or a
  foreign-key drop run again on what SQLite then reports builds the same
  statement; reverting a converted column gives back a `TEXT` column). Table rebuilds are
  built from `PRAGMA table_info` alone: they keep each column's type,
  `NOT NULL`, `DEFAULT` and primary-key declaration, and nothing else.
- `app/` runs those decisions against a sea-orm connection and the file
  system, reads the clock and the random source that the records need,
  and gives the event records their serde form.
- `tests/` exercises the library on concrete values.
