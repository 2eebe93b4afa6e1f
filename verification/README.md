# glossa

The core of Glossa, a macOS helper for learning English with a language
model: select a word or a sentence anywhere, get an explanation of what it
means *here*, ask follow-up questions, and find every lookup again in the
history.

The library under `src/` is written in Verus. Its functions are proved
against their contracts, except a few small trusted items, each marked
`#[verifier::external_body]`, that make one call into SQLite (rusqlite),
serde_json, tokio or std; their contracts are believed as their doc comments
state. What the library hands to SQLite (statements and parameters) is built
by verified functions with exact contracts, and what it makes of each reply
is proved; what SQLite stores and returns, the clock reading and the `say`
process's exit are outside, and no contract claims them:

- `text`: whitespace, trimming, search and replacement over characters.
- `templates`: the built-in prompt templates, placeholder rendering, the
  variable scan and the static check of a user template.
- `config`: settings, role bindings, the template in force for each kind,
  and the cleanup applied before settings are written.
- `prompts`: the first user message of an explanation and the samples a
  template is tried on.
- `json`: the JSON model that model output is read through.
- `llm`: endpoints, request shapes, and the decision taken on each
  server-sent event of the OpenAI-compatible and Anthropic protocols.
- `session`: the requests each command sends, how streamed increments are
  forwarded, how a finished stream is reported and how a template trial is
  judged.
- `history`: the SQLite-backed lookup history.
- `server`, `windows`, `popup`, `popclip`, `speech`: the lookup endpoint's
  decision, window labels and payloads (`popup` for the stand-alone pop-up,
  which the main window has replaced), the PopClip extension, and the `say`
  voice list, voice choice and progress.

`app/` holds the desktop shell around it: Tauri windows and commands, file
and network I/O, the streaming loops, and the pieces that work in floating
point (window placement, speech rate).

`tests/` exercises the library from outside, with the real outside crates
linked.
