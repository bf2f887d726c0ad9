# tinyinstallj

The logic of a small terminal installer for Java programs, verified with Verus,
and the program that drives it.

- `src/` is the verified library:
  - `text`: splitting, trimming, substring tests and `i32` parsing on characters;
  - `platform`: the operating system and the generated program settings;
  - `java`: reading the Java version out of `java -fullversion`;
  - `paths`: joining paths, the install paths, candidate locations on `PATH`;
  - `scripts`: runner script, uninstall script, desktop entry, shortcut script;
  - `path_var`: adding the install directory to the Windows `PATH` value;
  - `admin`: the rights check (through `nix` on Unix);
  - `terminal`: whether to restart in a terminal, and with which command;
  - `utils`: yes/no questions and the installer's messages;
  - `installer`: the installation as a state machine, with its safety laws.
- `app/main.rs` performs the input and output (terminal, environment, files,
  registry) and follows the library's decisions. `app/config.rs` embeds the
  program's `.jar` file and icon, which the installer generator places in
  `test_data/` before the installer is built.
- `tests/` runs the library on concrete values.
