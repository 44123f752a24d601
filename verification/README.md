# hoppinworld

The online side of the Hoppin World game client, verified with Verus.

- `src/request.rs` builds the requests sent to the score server: login,
  score submission and token check, with their URLs, headers and bodies.
- `src/auth.rs` holds the player's session and how the server's replies
  change it.
- `src/json.rs` and `src/header.rs` state what `serde_json` prints and
  parses, and which header values HTTP accepts, and wrap those calls.
- `src/presence.rs` holds what the game shows on the player's Discord profile.
- `src/laws.rs` proves properties that span several calls.
- `app/main.rs` sends the requests over HTTPS and hands the replies back to
  the library.
- `tests/` runs the library on concrete values.
