# Puddle

A client library for the [Raindrop.io REST API](https://developer.raindrop.io/)
and the `puddle` command-line program built on it, written in Verus: the
library's behaviour is stated in `requires` / `ensures` contracts and proved.

## Layout

- `src/` — the verified library.
  - `models/` — raindrops, collections, tags, filters, the user, and the
    collection scopes (`All`, `Unsorted`, `Trash`, or an id) with their wire ids.
  - `pagination.rs` — page sizes (1 to 50) and page parameters.
  - `api.rs` — each operation's method and path, list queries, id lists.
  - `client.rs` — the headers and base URL of a client.
  - `http.rs` — rate-limit headers and what a reply's status and body mean.
  - `json.rs` — the JSON values that replies are read into.
  - `auth.rs` — OAuth token requests and their replies.
  - `config.rs` — settings from `PUDDLE_*` variables or a TOML file.
  - `cli/` — the command line: tokens, options and the command grammar.
  - `commands.rs`, `selection.rs` — what the commands send, how a bulk update
    picks its targets, and how an export walks the pages of a list.
  - `previews.rs`, `views.rs`, `display.rs` — the text the program prints.
  - `setup.rs` — the authorization address and the settings that setup saves.
  - `text.rs` — trimming, decimal numbers, joining.
- `tests/` — tests of the library.
- `app/` — the program: HTTP with reqwest, serde's JSON shapes, files and the
  environment, prompts and printing.

## Environment variables

The program reads its settings from `PUDDLE_CLIENT_ID`, `PUDDLE_CLIENT_SECRET`,
`PUDDLE_REDIRECT_URI`, `PUDDLE_ACCESS_TOKEN` and `PUDDLE_REFRESH_TOKEN` when
any of them is set (all five are then needed), and otherwise from
`$XDG_CONFIG_HOME/puddle/config.toml` (or `~/.config/puddle/config.toml`),
which `puddle setup` writes.
