# pop_upgrade

Release-upgrade support for Pop!_OS: the decisions behind an offline upgrade to the next
Ubuntu-based release, written in Verus with their contracts proved.

## Layout

- `src/` — the verified library.
  - `text` — the string model shared by the other modules (lines, words, searches).
  - `version`, `codename`, `eol` — release versions and codenames, and end-of-life status.
  - `sources` — the apt source lists: defaults per release, backups, restores, third-party
    sources, old-releases.
  - `fstab`, `esp`, `swapfile`, `dracut`, `repair`, `fs` — system repairs made before an
    upgrade and the atomic replacement of configuration files.
  - `boot` — the systemd-boot default entry and the files of an offline upgrade.
  - `release` — packages to remove, install and downgrade, and how fetches are retried.
  - `client`, `cli`, `widget` — what the daemon's clients exchange with it, and what the
    command-line client and the desktop widget show and decide.
  - `arch`, `logging` — the recovery image's architecture, and log locations.
- `tests/` — tests of the library.
- `app/` — the `pop-upgrade` program: argument parsing, files, commands and devices.

## Notes

- `version::months_since` takes the year and month it counts to as arguments. The clock is
  not read in the library; a count "since today" reads today's date in the caller and
  passes `year - 2000` as `major`. (Computing `2000 - year` as an unsigned number, as a
  reading of the date might suggest, underflows for every year after 2000.) Arguments above
  `i32::MAX` wrap to negative values, as `as` casts them.
- Decisions that alternate with I/O are written as step functions or plans that take the
  outcome of each outside operation as an argument: the listeners of the command-line client,
  the `release upgrade` loop (`cli::release_upgrade_requests`), the download and the scan of
  the desktop widget (`widget::download_plan`, `widget::scan_notices`), the mounts of the
  fstab repair (`fstab::mount_required`) and the move of the EFI partition
  (`esp::esp_conversion_plan`). `app/` carries out what they decide.
