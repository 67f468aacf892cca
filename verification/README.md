# ugo_backend

The core of a small web service that takes customer requests from a site and
stores them in MySQL, checks an age-verification token, and opens admin
sessions.

- `src/` is the verified library: the exchanged data (`data_structs`,
  `data_models`), the CORS policy (`cors_config`), the admin-session pool,
  the login check, the field check and the connection-refresh timer
  (`model_nosql`), and the decisions of the HTTP handlers (`warp_handler`).
- `app/` is the program around it: warp routes and filters, the MySQL
  connection, queries and inserts, the background tasks, and serde copies of
  the library's types.
