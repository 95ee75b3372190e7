# big8k

The host-side logic of the Big8K 8K OLED bring-up platform, as a Verus-verified
library, with the I/O around it in `app/`.

- `src/` — the verified library:
  - `timing`, `timing_decode`, `timing_laws`: the `vis-timing.bin` encoder, the
    readers of both configuration-file layouts, and the laws that tie them
    (a generated file reads back as the request that produced it).
  - `adb`, `probe`, `mipi`, `framebuffer`, `display_actions`, `uploads`,
    `remote_files`: what the ADB commands mean, from device selection to the
    results shown to the user.
  - `deploy`, `actions`: the deployments and the configuration download as
    state machines that name the next board action and react to its outcome.
  - `host_env`, `presets`, `ssh`, `sample_bin`, `openclaw`, `results`, `text`.
- `tests/` — tests of the library on concrete values.
- `app/` — the command handlers that run `adb`, read files and the host's
  network interfaces, open SSH sessions and read image files, and a small
  program that converts a configuration file to `vis-timing.bin`.
