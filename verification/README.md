# tenuto

The core of a terminal audio player, written and verified in Verus: what is
queued and in which order it plays, what is remembered of everything that was
heard, how a damaged state file is repaired, and what every key, click and
answer does to the screen.

- `src/` is the verified library. `session` holds the playback policy,
  `persistence` the saved state and its repair, `playlist` and `queue` the
  lists, `application` the transport rules and what a front end is shown,
  `station` the saved stations, `tui` the decisions of the terminal interface,
  and `app` those of the command line.
- What holds over several operations is stated as public proof functions, in
  the module it is about and in `session_laws`, `session_promises`,
  `persistence/laws`, `persistence/recovery_laws`, `persistence/round_trip` and
  `tui/browser_laws`.
- `app/` is the ordinary Rust around it: files, the terminal, drawing and
  threads. The audio engine, the workers and the signal handling come in through
  the traits of `app/parts.rs`.
- `tests/` runs the library on concrete values.

The library believes, without proof, what it says of `String::push`,
`url::Url::parse` and the two measures of `unicode-width`. Each of these stands
behind one small function whose comment says what is claimed. Pictures are
decoded in `app/`, where a decoder's panic is kept from spreading; the library
decides which file is decoded, when, and what is shown.
