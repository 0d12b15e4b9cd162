# Backstitch launcher

The launcher keeps the Backstitch Godot plugin and the Godot editor up to date
in a project and opens the project in the editor.

- `src/` is the verified library: the decisions of the launcher, with their
  contracts and laws.
  - `backstitch_update.rs`: release selection, release metadata, version
    checks, asset digests, and the update session (`try_update`), a state
    machine the program drives event by event.
  - `godot_urls.rs`, `godot_update.rs`: where a Godot build is downloaded
    from, where its executable lies, and when a download is needed.
  - `config.rs`: combining command-line and file settings.
  - `utils.rs`: the launcher's errors, yes/no answers, resuming and checking
    downloads.
  - `update.rs`, `patchwork.rs`, `launcher.rs`: the earlier updater, the
    Patchwork updater, and the launch itself.
  - `release_notes.rs`: the metadata block that release notes carry.
  - `archive.rs`: where archive entries are unpacked.
  - `text.rs`, `platform.rs`: string helpers, the supported platforms and
    the terminals the launcher relaunches itself in.
- `app/` is the program: command line, configuration file, network, archives,
  file system and terminal, calling the library for every decision.
- `tests/` runs the library on concrete cases.
