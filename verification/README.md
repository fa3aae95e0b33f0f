# music_bot

The logic of a Discord music bot that queues Spotify and SoundCloud tracks
and plays TikTok LIVE streams, verified with Verus.

- `src/` is the verified library: track metadata, link recognition for the
  three services, Spotify search queries and menus, Spotify audio file choice
  and seeking past the Ogg header, TikTok page state reading, the queue view's
  pages and buttons, the voice-channel decisions of the commands, their
  messages, and the ffmpeg command lines.
- `app/` is the bot around it: the Discord framework, voice connection,
  network and file access, and the audio pipeline.
- `tests/` exercises the library on concrete values.
