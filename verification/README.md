# tgltrk

A command-line client for the Toggl Track time-tracking API, built around a
library whose behaviour is specified and proved with Verus.

- `src/` is the verified library: the command rules (durations, date-times,
  the stop and duration of a new entry, the listing order, what a write drops
  from the cache), the on-disk cache rules (keys, file paths, expiry), the
  request bodies and endpoints of the API, the texts and JSON envelopes that
  the commands print, and the laws that relate them.
- `app/` is the program around it: argument parsing with clap, HTTPS with
  reqwest, the cache files on disk, the keyring, and the dispatch of commands.
- `tests/` runs the library on concrete values.
