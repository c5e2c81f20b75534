# insights_bot

The logic of a Telegram bot that recaps group chats, written in Rust and verified with
[Verus](https://github.com/verus-lang/verus).

The bot records the messages of the groups that agree to it. On command, or several times a
day, it has language models write a detailed recap and a one-line summary, and delivers both
as rich messages that fall back to plain text. Groups are configured with buttons, and users
can subscribe to the recaps of a group or forward messages to the bot in private.

## Layout

- `src/` is the library. Everything in it is verified: what a function returns or changes is
  stated in its contract, over mathematical models of its inputs.
  - `config`, `dotenv`, `template`, `address`: settings, prompt templates, addresses.
  - `text`, `text_map`, `numeral`, `utf8`, `utf16`, `identifier`: texts and numbers.
  - `db`: rows, statements, and how a database is reached.
  - `redis`: keys, the in-memory store, and the commands of the shared store.
  - `services`: model calls, recap formatting and delivery, message capture, link previews,
    rate limits, and the schedule of automatic recaps.
  - `bot`: commands, buttons, handlers and middleware.
  - `lifecycle`, `reply`: start and stop, and what has become of a request.
- `tests/` runs the library on concrete values.
- `app/` is the program around it: it talks to Telegram, the databases, Redis and the models,
  and takes every decision from the library.

Work that waits for the outside is written as steps. A step function is given all that is
known so far and says what to do next; the program carries that out and asks again. So the
whole course of, say, a recap is one function whose contract covers every order of failures.

Calls into other crates stand behind small functions marked `external_body`. Their doc
comments name the outside function and say what is taken for granted of it.
