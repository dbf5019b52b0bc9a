# homebot

A Discord bot for a home server: it gives members private rooms, registers
slash commands to manage them, links Minecraft accounts through a login
server, and speaks messages in a voice call.

- `src/` is the library, verified with Verus: the command decisions, the
  room map, the verification codes, the Minecraft login checks, the speech
  request and the audio processing, each with its contract.
- `tests/` runs the library on concrete values.
- `app/` is the program around it: the Discord client, the database, the
  network and the voice call.
