# luxamor

A little web service that lets your loved ones tell you they are thinking of
you, by changing the colour of your lights for a few seconds. Each person gets
an invitation link; sending a colour through it (at most once per configured
timeout) updates a Home Assistant sensor.

## Layout

- `src/` is the library, verified with Verus:
  - `helpers.rs`: invitation links, colour parsing (colors-transform) and the
    request that tells Home Assistant of a ping;
  - `clock.rs`: UTC instants as plain numbers and chrono's time differences;
  - `settings.rs`: defaults of the settings and the made-up administrator password;
  - `db_structs/`: the rows of the `users` and `pings` tables;
  - `routes.rs`, `routes/admin.rs`, `routes/user.rs`: what each request
    handler decides, from the rows and answers it is given;
  - `web.rs`: redirects, flash messages, status codes, routes and private cookies;
  - `random.rs`, `text.rs`: randomness (rand) and text building blocks.
- `app/` is the Rocket program around it: the SQLite database (diesel), the
  templates, the configuration file and the HTTP client.
- `tests/` runs the library on concrete values.

## Usage

Copy `luxamor.toml.example` to `luxamor.toml`, set `haas_key` (a Home Assistant
token) and `PRE_SHARED_KEY` (the administrator password), set a secret key in
`Rocket.toml`, and run the program. The administrator page is at `/admin`.
