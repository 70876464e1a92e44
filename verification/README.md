# notezilla

The logic of the Notezilla notes frontend as a verified library: how notes
are opened, edited, saved and exported, how the file trees move and rename
them, how prompts for a language model are assembled, and how the MCP, Ollama
and Gemini back ends are spoken to. Every function in `src/` carries a
contract that Verus proves, except four small wrappers around serde_json,
serde_yaml and std (`json_string`, `parse_json_text`, `parse_yaml_as_json`,
`string_of`), whose contracts are trusted; the public `lemma_*` proof
functions state the library's laws.

Layout:

- `src/` — the library. `text` and `sort` hold the character-sequence
  toolkit the rest is written with; `block`, `import`, `save`, `path`,
  `note` and `app_state` model notes and the editor state; `file_tree`,
  `file_tree_backend`, `dialogs`, `search`, `panels`, `settings_panel`,
  `settings_validation`, `hotkeys`, `editor`, `top_bar` and `toast` hold the
  decisions of the user interface; `export` builds exported documents;
  `mcp`, `json_text` and `prompting` frame requests and judge replies of the
  back ends; `constants`, `default_settings` and `info_messages` hold fixed
  values and the user-visible copy.
- `tests/` — tests run against the compiled library.
- `app/` — the browser program: network calls, the wire formats of the
  replies, and the floating-point settings, around the library.
