# akama

The verified core of Akama, an XMPP chat client: its data model (JIDs,
accounts, contacts, messages, the events between window and backend) and its
decision logic, with contracts proved by Verus.

- `src/common`: the shared types; `id.rs` parses JIDs through the `jid`
  crate (re-exported by `xmpp-parsers`).
- `src/id_map.rs`: the map keyed by bare JIDs that holds accounts and
  contacts.
- `src/screen/dashboard`: the dashboard's state machine, its dialogs, and
  the byte channels of packed colours.
- `src/backend`: what the backend does for each request of the window and
  each event of a connection, as a list of actions; the stanza models; what
  it makes of database rows.
- `src/core_model`, `src/ui`: the first form of the types and of the
  dashboard.
- `src/laws.rs`: properties that span several functions.
- `app/`: the program around the library: the window (iced), the XMPP
  connections (tokio-xmpp), the database (sqlx/SQLite) and logging.
