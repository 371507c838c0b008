# downonspot

The verified core of a Spotify downloader and Spotify Connect login helper,
written in Verus.

- `src/` is the library; every function in it carries a contract. Verus proves
  them all except those of the few trusted items that call outside crates or
  std (marked `#[verifier::external_body]`), whose contracts state what those
  functions do.
  - `text`: character-level helpers (`split_on`, `count_occurrences`, `starts_with`).
  - `uri`: `spotify:` URIs and `open.spotify.com` links (`Spotify::parse_uri`),
    and what a URI asks the Web API for (`Spotify::resolve_uri`).
  - `device`, `service`, `login`: the speaker's name and id, its mDNS record and
    the decisions and messages of the login flow.
  - `filename`: `is_valid_filename`, with a proof of which names it accepts.
  - `paging`: walking a paged Web API listing to its end (`Collector`).
  - `web`: the replies of the web API.
- `tests/` runs the library on concrete values.
- `app/` is the program around it: the discovery tool's `main`, the Spotify
  client (librespot session, Web API calls) and the actix-web server.
