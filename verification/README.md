# lorelei

The rules of a Discord bot that plays music in voice channels and opens
voice channels on demand, written in Verus and proved against their
contracts.

- `src/` is the library: slash command definitions, the replies the bot
  sends, the `/play` command as a state machine, reading yt-dlp's playlist
  output, the on-demand voice channels and the status channel. Each public
  function states what it returns; the proof functions state the laws that
  hold across calls.
- `app/` is the bot itself: it connects to Discord through serenity and to
  voice through songbird, performs what the library decides and hands it
  back what happened.
- `tests/` runs the library on concrete values.
