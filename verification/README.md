# lib: verified core of a player-trade mod

A one-for-one player trade for a team-management game: the client's trade
screen asks the server for a quote, submits a proposal, and follows it through
the seller's and the player's review until it is accepted, rejected or
cancelled; an accepted proposal is committed as one sealed command.

`src/` is the verified library (Verus). Every function there carries a
contract over mathematical models (`Seq`, `Map`, `int`), and the laws that
tie functions together are proof functions:

- `kv`, `fields`, `text`, `hashing`: the `key=value` line format, field
  readers, text helpers and the FNV-1a hash.
- `proposal`, `receipt`, `registry`, `plan`: stored proposals, commit
  receipts, the registry of executed plans and plan ids (each decodes what it
  encodes).
- `trade`, `status`, `money`, `cash_search`, `roster`, `season`: the trade
  rules, promised roles, money formatting, the least cash that a seller
  accepts, roster structure and the one-trade-per-recruit-season rule.
- `lifecycle`, `commit`, `news`: the proposal's life, the checks around a
  commit, and the single announcement of an accepted trade.
- `payload`, `views`, `client`: what the server answers and what the client
  reads of it (answers read back as what was sent).
- `ui_tree`, `clicks`, `profile`, `display`: queries on the game's UI tree,
  click routing, the player-profile state machine and the texts shown.

`app/` is the thin layer around the game's SDK (commands, events, the UI tree
and the database); it converts the game's values into the library's and
writes back what the library decides for commands, the lifecycle, commits
and the profile and trade-button display.  The trade popup's flows (opening
it, quote and submit requests from clicks) are not carried out there. `tests/` runs the library on concrete
values.
