# FluidSiren

Local, private voice-to-text dictation for Wayland / KDE Plasma: press a hotkey,
talk, and what was said is transcribed on the machine, cleaned up by a local
language model if that is wanted, and typed into the focused window.

- `src/` is the library: what the app decides, written in Verus and proved against
  its contracts. It does no input or output of its own. Each function takes
  what a call to the outside brought back and says what to do next.
- `app/` is the program around it: microphone, speech recognisers, HTTP, input
  devices, the desktop portal, the tray, the settings window and the overlay.
- `tests/` runs the library on concrete values.

| Module | What it decides |
| --- | --- |
| `config` | settings, their defaults, and where settings and models are stored |
| `hotkey` | key names and codes, who listens, what a press and a release do |
| `engine` | what a command does, and what is reported of a clip |
| `enhance` | the request for a cleanup, and whether the answer is one |
| `markers` | the markers around a transcript, and an answer without them |
| `single` | the limits on a cleanup, rounded as single precision rounds them |
| `asr`, `parakeet` | fetching a speech model, and the text of a transcription |
| `overlay`, `ui` | the recording overlay, the tray and the settings window |
| `inject`, `ollama`, `scope` | calls of `ydotool`, `systemctl` and `systemd-run` |
| `audio`, `http`, `cli`, `text` | samples, statuses, the command line, and text |

What is taken on trust are the contracts of a few calls into `directories`,
`evdev`, `reqwest` and the standard library. Each stands beside the call, with what
it claims of it.

Arithmetic on samples and drawing are floating point and stay in `app/`.
