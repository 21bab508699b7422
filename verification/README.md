# distrakt

A Discord bot that logs users in to trakt.tv, shows their watchlists and announces
episodes and movies as they air.

- `src/` is the verified library: the embeds the bot sends, the watchlist lines, pages,
  cache freshness and random pick, the device-code login as a state machine, the
  notifier's sync plan, delivery rule and notifications, and the decimal and clock formatting they use.
  Instants are plain integers (`time::UtcTime`); the RFC 3339 and display texts of
  instants and dates come from chrono, the random pick from rand.
- `app/` is the bot around it: serenity commands, the PostgreSQL, SQLite and sled
  storage, trakt requests, and the loops that perform the library's actions.
- `tests/` runs the library on concrete values.
