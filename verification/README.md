# Human Exception

The resistance console: a terminal program in which the player writes a Lua
controller for a drone, deploys it against the fixed First Contact scenario,
and reviews the run tick by tick.

`src/` is the library, written in Verus and proved against its contracts:

- `simulation`, `lua_controller`, `satellite`: the scenario, the rules of a
  tick, and its picture;
- `cli`: what a command line means, and the lines that a headless run prints;
- `console`: the session. `key`, `navigation` and `event` turn keys into
  intents, `state` applies them, `document` and `buffer` edit the controller
  source, `intel` holds the authored material, `marker`, `intro` and `profile`
  the facts kept between sessions. `session` is the mathematical model, and
  `laws` states what holds of every session.

`app/` is the program around it: arguments, terminal, files, and the Lua host.
The library asks the host for work through `Request`, and is told the outcome.

`tests/` runs the library on concrete values.
