# wallpaper_core

The decision core of a desktop video wallpaper engine for Windows, verified with
Verus.

- `src/` is the library. It works on plain values: what the operating system, the
  media pipelines and libVLC report comes in as arguments, and what they have to
  do next goes out as results. Workers and startups are machines that take an
  event and give the next action. Every function has a contract, and the laws
  that relate several of them are proof functions beside them.
- `tests/` runs the library on concrete values.
- `app/` performs the actions. `audio`, `video`, `decoder`, `player` and `engine`
  drive the machines; `windows_host` holds the calls into Windows, Media
  Foundation, Direct3D, WASAPI and libVLC, and the C interface. It is built on
  Windows only.

| module | what it decides |
| --- | --- |
| `engine`, `monitor`, `preparation`, `controls` | requests, startups, fallbacks, controls and shutdown of playback |
| `desktop`, `media_path` | windows on the desktop, paths of wallpapers |
| `mf_d3d11`, `presenter`, `gpu_setup` | the native video renderer and its frames |
| `direct_mft`, `smoke_test` | the direct decoder backend |
| `native_audio`, `audio_worker`, `pcm_queue`, `playback_clock` | native audio and the clock that video follows |
| `media_event_queue` | subscriptions to media events |
| `vlc` | playback through libVLC |
| `status`, `failures`, `text` | what callers are told |
