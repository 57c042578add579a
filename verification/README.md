# tootodo

The core of a personal planner service (categories with typed properties,
events with chats, habits, notes, and tasks shown as a tree), written in
Verus with its behaviour stated in contracts and proved.

- `src/` — the verified library: the records and the documents written for
  them, the `$set` entries of every update, the merge of a deleted
  category's properties into another, the task tree, paging, identifier
  parsing and the error replies of the HTTP surface. MongoDB identifiers,
  UUID text and the clock are reached through a few trusted calls into
  `bson`, `uuid` and `chrono`, each with its contract in a doc comment.
- `tests/` — tests of the library on concrete values.
- `app/` — the HTTP server (axum) and the MongoDB calls around the library:
  handlers read the request, perform the database operations and hand each
  outcome to the library.

The signed-in user reaches the service in the `x-user-id` header; the
server reads `MONGODB_URL` and `MONGO_INITDB_DATABASE` from the environment.
