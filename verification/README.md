# dig_bot

The rules of a chat-server digging game, verified with Verus.

- `src/` is the library: items and their values (`item`), rarity grades
  (`rarity`), digging locations and drop pools (`location`), weighted item
  generation (`generator`, over `rand` through the trusted items of
  `random`), inventory values, sales and pages (`inventory`), coin-flip bets
  (`coin_flip`), dig cooldowns and announcements (`dig`), table definitions
  and balance texts (`db`), command plumbing and server setup (`commands`),
  and the string building they share (`text`).
- `tests/` runs the library on concrete values.
- `app/` is the bot itself: the command framework, the chat service, the
  database and the floating-point rarity, around the library.

`app/` also keeps the bot's records in `surrealdb`, which `Cargo.toml`
leaves out to keep the dependency tree small; `app/` compiles only once
that crate is added back.
