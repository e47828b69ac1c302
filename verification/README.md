# sc-cli

A terminal client for Shortcut stories: a board and list view of stories
with popups to create, edit, comment on and move them, plus `view`,
`finish`, `comment` and git branch commands.

- `src/` is the verified library: the story model, configuration, the
  command-line decisions, git branch planning, the story listing, and the
  state machine of the terminal interface, where every key press has a
  contract (`ui::keymap::key_effect`).
- `app/` is the program around it: argument parsing, the HTTP client,
  configuration files, git commands, prompts, and drawing with ratatui.
- `tests/` runs the library on concrete values.
