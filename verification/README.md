# game_api

The server side of a multiplayer card game, verified with Verus.

- `src/constraint.rs`: user names and the rule they follow (`fancy_regex`
  does the matching).
- `src/managers/`: rooms, games, logins and statistics.
- `src/handlers/`: the menu, room and game handlers, each a step from
  server state and request to new state, answer and next handler; the laws
  that hold across requests are in `handlers/laws.rs`.
- `src/messages/`: requests, responses, and the length-prefixed frame
  they travel in.
- `app/`: JSON encodings (serde), reading and writing frames on streams,
  and the lock that shares the state between connections.
