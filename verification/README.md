# nyaterm_portable

The portable updater of NyaTerm for Windows, with its rules proved by Verus.

- `src/` is the verified library:
  - `layout` and `payload`: the update target per architecture, the names the
    updater gives its files, and the rules a downloaded archive must meet
    (one root folder, only the nine program files, no links, sizes and entry
    count within their limits);
  - `archive`: reading a ZIP archive with the `zip` crate under those rules;
  - `commit` and `replace`: the step machines that swap the installed
    executable, MCP server and ConPTY directory and roll back on failure;
    `model`, `replace_model` and `replace_faults` prove them against a model
    of the directory, for one failing operation and for any number of them;
  - `helper`: the helper process' command line and the wait for its parent;
  - `state`: what the updater remembers between its commands;
  - `conpty`: the bundled ConPTY location and support information.
- `app/` is the Tauri side: downloading, file-system and process work, which
  drives the step machines and hands their decisions out to the system.
- `tests/` runs the library on concrete archives and on an in-memory directory.
