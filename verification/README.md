# syncho

Keeps music playback in sync between a host and listeners on a LAN. The
host hands out a four-digit session code; listeners connect with it and
their Cider or Spotify player follows what the host's player does.

## Layout

- `src/` is the verified library (Verus):
  - `types.rs`: the protocol messages, songs and the player configuration;
  - `host.rs`: which message each playback event of the host's player
    becomes, and the host's conversation with one listener (authentication,
    then forwarding) as a state machine;
  - `client.rs`: the listener's session with the host as a state machine,
    and the player commands each message asks for;
  - `laws.rs`: properties over runs of both machines (no session without
    the code, every broadcast reaches an accepted listener, the handshake,
    a host event reaching a listener's player);
  - `media.rs`: playback status names and de-duplication of track reports;
  - `cider.rs`, `attributes.rs`: Cider search keys, the search retry policy
    and the attributes of the playing song;
  - `json.rs`, `spotify.rs`: reading Spotify Web API answers and building
    its requests; the credentials and their refresh;
  - `player.rs`, `session.rs`: the local player, join codes and setup;
  - `text.rs`, `unicode.rs`: decimal numbers, whitespace, search, joining,
    and the Unicode tables of std and `unicode-normalization`.
- `app/` is the program: sockets, channels, HTTP requests, the operating
  system's media sessions, the prompt, and the serde forms of the library's
  types.
- `tests/` runs the library on concrete values.
