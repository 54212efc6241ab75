# lab_5

A small student and group registry: a REST backend (students in PostgreSQL,
groups in MongoDB), a frontend that serves its pages, and a static site.

`src/` is the verified request logic:

- `number`: decimal integer parsing (`i32`, `u16`) with its grammar as a spec.
- `form`: the student form, read field by field from a multipart body.
- `students`: the SQL statement each student endpoint runs, and its answers.
- `groups`: new group ids, the rule that keeps a group with students, and the answers.
- `config`: the servers' settings from their environment variables.
- `routes`: the API's route table and the frontend's pages.
- `reply`, `model`, `text`: answers, records, and string helpers.

`app/` runs the servers: with no argument the backend, with `frontend` the
frontend, and with `static` the static site.
