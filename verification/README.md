# chainpost

The request-handling rules of the chainpost server, verified with Verus.

- `src/` is the verified library: session-token claims and checks
  (`claims`, `services`, with the clock read in `clock`), the SQL
  statements the handlers send (`db`), the judgement of new posts and the
  text helpers (`api`, `text`), the HTML and CSV renderings of a user's
  posts and how the CSV reads back (`render`, `sheet`, `reading`), the
  replies of every route (`reply`, `pages`, `api`), and the laws that
  relate them (`laws`). Handlers that wait on the outside world
  (`POST /api/post`, the Cardano sign-in) are step functions from stage
  and event to next stage and action.
- `app/` is the actix-web server around it: it reads requests and the
  environment, talks to the database, the signature-validation service
  and `jsonwebtoken`, and turns the library's replies into HTTP responses.
- `tests/` runs the library on concrete values.
