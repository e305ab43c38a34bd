# reminders

A command-line tool that turns Chinese natural-language phrases such as
`明天下午3点开会` into reminders in Apple's Reminders app.

* `src/` is the library, verified with Verus: the rule-based phrase parser
  (`parser::parser_regexp`, with its phrase tables in `parser::patterns`),
  the handling of the language model's answers (`parser::parser_ai`), the
  model-then-rules parser (`hybrid_parser`), the AppleScript it writes and
  the reading of the app's answers (`apple_reminders`), settings (`config`),
  reminders and their display (`reminder`), what the command line shows
  (`cli`) and the decisions of the `add` and `parse` commands (`commands`).
  Regular expressions are the `regex` crate's and calendar arithmetic is
  `chrono`'s, reached through small trusted wrappers.
* `app/` is the program around it: argument parsing (clap), the settings
  file (`~/.config/reminders/config.json` on every platform), the HTTP call to the model,
  terminal input and output, and running `osascript`.
* `tests/` runs the library on concrete inputs.
