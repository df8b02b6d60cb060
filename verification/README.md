# hatoba

A shell plugin that offers a menu of working directories when a login shell
starts, and `cd`s into the one chosen.

- `src/` is the library, verified with Verus:
  - `store.rs`: the registered directories (`DirStore`) and what adding,
    removing, making default and swapping do to them;
  - `error.rs`: refusals and their messages, with the trailing-slash hint;
  - `menu.rs`, `prompt.rs`: the menus' decisions (cursor moves, start row,
    entries, choices);
  - `init.rs`: the bash and zsh snippets; `list.rs`: the `list` lines;
  - `messages.rs`: the texts in English and Japanese;
  - `settings.rs`: setting the language in `config.toml` through toml_edit;
  - `laws.rs`: properties that span several operations.
- `app/` is the program: command line, the SQLite file, `config.toml`, and
  the terminal menus.
- `tests/` runs the library on concrete values.
