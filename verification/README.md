# chatgpt_core

The settings and user-script logic of a desktop ChatGPT client, verified with Verus.

- `src/conf.rs`: the settings (`AppConf`), their defaults, reading them from a JSON
  document, amending them with a partial document, and deciding what loading gives.
- `src/theme.rs`: the window theme a setting asks for.
- `src/template.rs`: reading a user script's header and deciding whether an
  installed copy is replaced by the bundled one.
- `src/json.rs`: the JSON values the settings logic reads.
- `src/constant.rs`: window sizes, labels and the injected page script.
- `app/`: file I/O, JSON text, and the desktop around the library.
