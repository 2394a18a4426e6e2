# speechlab

The verified core of a local speech toolkit (speech-to-text with GigaAM v3
models, text-to-speech through a local engine server, push-to-talk voice
input). `src/` is a Verus library: every function there carries a contract
that Verus proves. `app/` is the desktop application around it: windows,
files, network, audio devices, the neural-network runtime and the
floating-point signal processing.

Modules of the library:

- `text`, `paths` — character-sequence utilities and path joining;
- `hotkey`, `stt`, `mic` — key codes and names, the global listener's
  decision, the push-to-talk state machine, channel selection and chunking of
  microphone samples;
- `asr`, `vocab`, `vad` — model choice, greedy CTC and RNN-T decoding, the
  vocabulary file format and detokenization, splitting recordings at pauses;
- `presets`, `release`, `tts_engine`, `clone`, `settings` — engine presets and
  downloads, release assets and installed engines, starting and reusing the
  engine server and building its requests, cloning references;
- `voices`, `timefmt` — the voice store (ids, files, listing order) and UTC
  timestamps;
- `session`, `logpath` — the recognition session and the log location.

## Voice ids

A voice's id is made from its display name by `voices::sanitize_id`: only
ASCII letters and digits are kept (lower-cased), every run of other
characters becomes one `_`, and `_` is trimmed from both ends. A name with no
ASCII letter or digit at all, such as an all-Cyrillic `Влад`, therefore gets
the fallback id `voice` (and `voice_2`, `voice_3`, … when that is taken); the
display name itself is kept unchanged in the voice's manifest. Keeping ids
ASCII-only is what lets the speech server open every file of the store.
