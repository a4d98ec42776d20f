# win_media_unbind

A Windows tool that removes the default-program associations of common video,
audio and playlist extensions: for each extension it deletes `.<ext>` under
`HKEY_CLASSES_ROOT` and under the current user's `FileExts` key, logs what it
removed, and tells the shell to refresh its icons.

- `src/` is the library, verified with Verus:
  - `messages.rs`: the log texts;
  - `extensions.rs`: the three groups of extensions;
  - `cleaning.rs`: a cleaning run as a state machine that hands out one action
    at a time (log, delete, open, refresh), with the proof that a run does, for
    every answer of the registry, exactly the sequence of steps the tool
    promises;
  - `layout.rs`: where the native window's controls go for a window size;
  - `unbind.rs`: the tool's log and the runs its buttons start.
- `app/` is the program: the native window (default) or, with `--egui`, the
  immediate-mode window, and the registry and shell calls a run asks for.
- `tests/` runs the library on concrete values.

Deleting keys under `HKEY_CLASSES_ROOT` needs administrator rights: run the
program elevated (the crate carries no build script that would embed a
manifest asking for them).
