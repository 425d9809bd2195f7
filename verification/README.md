# imageboard

A small threaded message board. `src/` is the verified core; `app/` is the
web server around it (actix-web handlers, diesel queries, askama pages).

- `src/entities.rs` — the stored records (threads, posts, admins) and the rows to insert.
- `src/numbers.rs` — reading form numbers exactly as `i32::from_str` does.
- `src/payload.rs` — collecting a multipart upload: text fields into a serde_json object (behind trusted wrappers of `serde_json::Map`), written as one JSON text; file parts into staging records.
- `src/posting.rs` — the state machine that turns a submitted form into database writes and a reply, with its laws.
- `src/pages.rs` — display records of posts and the state machine that gathers the front page.

The handlers in `app/` await the database and the request body and feed what
they get to these state machines, performing the actions they answer with.
The askama templates `templates/index.html` and `templates/res.html` are not
part of this tree.
