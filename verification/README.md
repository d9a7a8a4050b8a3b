# blog

A small blog service: users write posts with tags, and clients list the
posts page by page, optionally searching titles and bodies.

- `src/` is the verified library. `models` and `response_models` hold the
  stored records and the answers clients see. `post::create` and
  `post::read` drive the creation and the listing of posts as conversations
  with the database: each step takes the database's last answer and gives the
  next query to run, so every decision (what to insert, in which order, what
  to look up, how to assemble the page, what a failure means) is proved
  against its contract. `handlers` decides the answer to each request and the
  pagination data, and `routes` lists the routes.
- `app/` is the server: Rocket routes, the Postgres pool, and the Diesel
  queries that carry out the conversations' actions.
- `tests/` drive the conversations against an in-memory stand-in for the
  database, and check the handlers and routes.
