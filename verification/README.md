# audio_manager

The decision core of `audio-manager`, the terminal installer that deploys the
EasyEffects presets and impulse responses, the PipeWire quantum setting and
the niri autostart entry of this dotfiles set, and rolls them back from a
backup archive.

The library (`src/`, with its specifications and proofs) holds:

- `state`: the installer state, the key bindings, and the state machine that
  says which task runs next and where a finished task leads;
- `steps`: what each task reads and writes (paths, backup plan, link and niri
  decisions, the backup to restore) and every change it makes to the state;
- `disk`: what each step does to the disk and to the services (write the
  archive, create a directory, write the autostart file, run the restart
  command), which in a dry run is nothing;
- `dry_run`: one update of a dry run as a single change of state, made from
  what the program saw on disk, with nothing for the program to carry out;
- `screen`: what the terminal shows for a state (mode banner, step list, log
  tail and colours, status bar, gauge label);
- `paths` and `text`: path joining, `~` expansion, file extensions, substring
  search, file-name order and decimal numbers;
- `laws`: properties across operations (deployment order, runs coming to
  rest, a dry run changing nothing, idempotent linking and autostart, later
  backups sorting later, rollback returning items to their place, the status
  bar matching the keys); `dry_run` adds that a whole dry run ends done at
  100%.

The program (`app/`) parses the command line, drives the terminal with
crossterm and ratatui, reads the local time with chrono, writes and unpacks the
archives with tar and flate2, and performs the file-system and process work
that the library's functions ask for.
