# copy_dvd

A DVD ripping tool built around HandBrakeCLI: it finds a disc, reads its
titles from HandBrake's scan, plans and runs one rip per chosen title, ejects
the disc and can upload the results to a server with rsync, scp or sftp.

## Layout

- `src/` is the library, written in Verus: disc detection and mount points,
  the scan parsers, rip planning, the session state machine, configuration
  defaults, the update checker's release choice, the HandBrake lookup,
  download and install rules, the upload commands, and the state behind the
  graphical window (selection, toasts, notifications, exit confirmation,
  tabs). Its functions carry contracts that Verus proves, except the small
  trusted wrappers through which it calls `regex`, `semver`, `zip`, `sha2`,
  `chrono`, `directories`, `dirs`, `num_cpus` and a few std functions: their
  contracts state what those crates document and are not proved.
- `app/` is the command-line program: argument parsing with `clap`, the
  configuration file with `serde`, the search for `HandBrakeCLI` on the
  path, and the processes it starts (HandBrakeCLI, eject, the upload tools).
  It hands the library plain values and acts on what the library decides.
  The graphical interface is not part of it.
- `tests/` runs the library on concrete inputs.

The configuration lives in `dvd_ripper/config.json` inside the user's
configuration directory (`~/.config` on Linux, `~/Library/Application Support`
on macOS, `%APPDATA%` on Windows). On the command line, `--quality`,
`--preset`, `--threads`, `--server`, `--username`, `--remote-path` and
`--method` override the configuration; up to `--threads` HandBrake runs go at
once.
