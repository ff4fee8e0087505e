# confhub

Backend of a conference app: admins log in with a password, receive a session
token, and manage conferences and their announcements; visitors see a
conference with its password.

- `src/` is the library, verified with Verus: Argon2 password hashes
  (`auth::pwd`), HS256 session tokens and their claims (`auth::admin_jwt`),
  the login and conference-access guards (`auth::admin_login`,
  `auth::conf_guard`), the decisions of each route (`routes`), the records of
  the database (`database::models`), decimal text (`text`), timestamps
  (`time`) and start-up configuration (`config`). Calls into `argon2`,
  `jsonwebtoken`, `serde_json` and `chrono` stand behind small trusted
  wrappers whose contracts are documented where they are declared.
- `app/` is the server around it: rocket routes and request guards, sqlx
  queries against Postgres, environment loading, and the serde copies of the
  records.
- `tests/` exercises the library on concrete values.
