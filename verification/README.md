# bencher

Verified core of a continuous benchmarking service's API: value validation,
testbed rows and their JSON forms, and server configuration.

- `src/valid.rs`: benchmark names, non-empty text and slugs, with their
  validation errors.
- `src/ids.rs`: row ids, UUIDs, timestamps and resource ids (a UUID or a slug).
- `src/json.rs`: the JSON records of users and testbeds.
- `src/testbed.rs`: lookups of testbeds and projects among the rows of their
  tables, the choice of a new testbed's slug within its project, new and
  changed testbed rows, and the laws that tie them together.
- `src/config.rs`: the messenger, logger and HTTP server settings built from
  the configuration file, the database location check and the licensor choice.
- `app/`: serde and error-message copies of library types, and the calls into
  `dropshot`, `slog` and the environment.

Outside crates called from `src/`:

- `uuid` for fresh testbed UUIDs and for reading UUIDs in resource ids;
- `slug` for deriving a slug from a name and for checking that a text is a
  slug (a valid slug is non-empty and left unchanged by `slugify`).

The current time is read from `std::time::SystemTime` as whole seconds
since the epoch (the service's timestamps are stored as such seconds); a
clock before the epoch gives no time rather than a panic.

Database access is not part of the library: lookups take the rows of the
table they search.
