# luro

The command logic of Luro, a Discord bot, written in Verus: what each slash
command, button and form answers is a function with a contract, proved
against its implementation.

- `src/` — the verified library, one module per command family
  (`base64`, `boop`, `heck`, `info`, `info_command`, `roles`, `moderation`,
  `character`, `ai`, `about`, …), with `response` modelling the replies
  (content, embeds, buttons) and `text` the string building they share.
  Public `law_*` proof functions state properties that span calls, such as
  "decoding what was encoded gives the text back" or "a boop press counts
  one up".
- `tests/` — tests on concrete values, run against the compiled library.
- `app/` — the ordinary Rust around it: the slash-command definitions that
  Discord registers, the chat model's JSON, and what is read from the
  machine (memory use, the git checkout, the clock).
