# sf_api

A library for the Shakes & Fidget game servers: it builds the request
strings of the game's commands, parses the server's responses and keeps the
state of a character up to date with them. Its logic is written in Verus
and proved against the contracts that its functions state.

- `src/command.rs`: the commands and the exact request string of each.
- `src/response.rs`: reading a response body into keys and values.
- `src/gamestate/`: the character's state and the parsers of its parts;
  `GameState::update` states, for each entry of a response, what it does to
  the state, that it succeeds where every entry can be read
  (`entry_readable`), and, for the entries of `error_named`, which error the
  first entry that can not be read gives.
- `src/misc.rs`: numbers, texts, escaping of server strings, hashing.
- `src/constants.rs`: the enemies of the light dungeons.
- `app/`: what stays outside the proofs: the floating point factors of
  classes and potions, and conversions of times into `chrono` values.
- `tests/`: tests of the library on concrete values.
