# star_setup

A command-line tool that clones, configures and wires together a single
repository or a multi-repository ecosystem (a "mono-repo" built from a test
repository and its library dependencies), for CMake, Meson and npm projects.

## Layout

- `src/` is the library, written in Verus. Every function in it has a
  contract that Verus proves, except two trusted wrappers whose contracts
  are taken on trust: `text::push_char` (`String::push`) and
  `npm::parse_package_json` (`serde_json::from_str`). The library covers
  how arguments are resolved against saved configurations, how configurations and profiles are added, removed and
  shown, the interactive dialog, how build systems are detected, the build
  plans for each build system, the generated root build files, wrap hoisting
  for Meson, watch and launcher scripts, what each mode reports, and the
  course of a setup as a state machine (`src/setup.rs`) that app/ drives.
  `src/laws.rs` states properties that relate several functions (for
  example, that a dry run never changes the saved configuration) and proves
  them from the contracts.
- `app/` is the program around the library: argument parsing with clap,
  reading and writing files, the JSON form of the configuration (serde),
  running commands and opening terminals. It hands the library plain values
  and carries out what the library decides.
- `tests/` runs the library on concrete inputs.

The library reads console input from a queue of lines and writes its output
to a string (`ctx::IoCtx`), so that each contract can state exactly what is
printed. The program feeds typed lines to it and prints what it wrote.
