# vocasync

A shared music room served over HTTP: listeners queue songs from NetEase
Cloud Music, one song plays at a time, and everyone sees the queue and the
song that plays.

- `src/` is the verified library (Verus): the room's queue and player
  (`room`), songs and users (`music`, `user`, `source`), the NetEase API
  requests and the reading of their JSON replies (`api::netease`, `json`),
  settings (`config`), errors and their replies (`error`), and the small
  pieces these rest on (`text`, `time`, `ids`).
- `app/` is the server around it: HTTP routes, sessions, the database pool,
  the HTTP client, the player's timer, and the serializable copies of the
  library's types.
- `tests/` runs the library on concrete values.
