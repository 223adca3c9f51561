# twitch_1337

The decisions of a Twitch chat bot, as a verified library, and the bot around
it.

The library in `src/` holds what can be decided from plain values:

- `ai`: the prompts of the `!ai` conversations and of the nightly run over the
  memory, the routing of tool calls, and the catalog of model names.
- `aviation`: the flight tracker with its schedule, phases, journal and
  messages, and the decisions about the providers it asks.
- `commands`: the other chat commands.
- `ping`, `ping_actor`: user groups that can be mentioned together.
- `schedule`: recurring messages and when they are due.
- `config`, `settings`, `startup`: the configuration and what follows from it.
- `berlin`, `time`, `decimal`, `json`, `lists`, `text`: what the others are made
  of.

Every function states in its contract what it returns, over the models that the
types have as views. What holds of several functions together is stated by
proof functions whose names begin with `law_`.

Some functions call crates that are not verified: `chrono` and `chrono-tz` for
the calendar, `hex` for hexadecimal digits and `rand` for nonces. Each such call
stands in a small function whose documentation says what is taken for granted.

The crate in `app/` fetches, stores and sends. It takes its language model, its
memory and its settings from the binary that starts it.
