# nas_normlzr

A terminal tool that normalizes the paths of movie and TV episode files on a
NAS: it parses file names with configurable regular expressions, proposes
Plex-style paths from configurable templates, optionally looks up missing
metadata on TMDB and TVDB, and renames the files you approve.

## Layout

- `src/` — the library, verified with Verus: filename parsing, path
  templates, proposed paths, scanning of directory listings, the state
  machine of the interactive renamer, the metadata lookup decisions and the
  texts the screens show. `src/laws.rs` holds the proved properties that
  span several functions.
- `app/` — the program around the library: command line, configuration
  file, terminal drawing, directory walks, renames on disk and HTTP lookups.
- `tests/` — tests of the library.

## Usage

```sh
nas_normlzr --help
```

```
Options:
  -c, --config <CONFIG>  Path to the TOML configuration file [default: config.toml]
  -d, --dry-run          Preview changes without renaming any files
      --movies <PATH>    Override the movies root directory from config
      --tv <PATH>        Override the TV shows root directory from config
```
