# artifacts_bot

A bot for the Artifacts MMO game server, split in two:

- `src/` is the verified library: the game data model (characters, items, monsters,
  resources, the map grouped by tile kind), the choice of where to send a character
  (nearest bank, best resource, weakest monster, workshop), the planning of bank and
  equipment operations, and the decisions of the request loops (retry statuses, exponential
  backoff, paging, repeated actions). Each public function carries a contract checked by
  Verus; the `law_*` proof functions state properties that span calls.
- `app/` is the program around it: HTTP requests, JSON, logging, the async routine of each
  character. It performs what the library decides.
