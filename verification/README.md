# llmq

Ask an LLM from your shell prompt and drop the answer straight into the command
line. The decisions are a library, verified with Verus; the terminal, the
network, the files and the processes are a thin program around it.

- `src/` is the library.
  - `text`, `text_laws`: trimming, lines, wrapping, by characters.
  - `json`: values, and reading them through `serde_json`.
  - `config`, `key`: defaults, merging, paths, where the API key comes from.
  - `api`, `worker`: the request, the lines of the reply, the worker behind a
    question.
  - `ui`, `ui_laws`: editing the question, streaming, picking.
  - `screen`, `screen_laws`: the picture, as steps of painting.
  - `cli`, `popup`, `tty`, `session`: the command line, the tmux popup, the file
    descriptors, and one run of the program.
- `app/` is the program: it performs what the library decides.
- `tests/` runs the library on concrete values.

What happens outside comes in as an event, and what is to be done goes out as an
action: `Session`, `Worker`, `Redirect`, `resolve_key` and `make_temp` all work
that way, so every outcome of the outside is covered by a contract.

The keys of the config file are those of the tables `[api]`, `[prompt]`, `[ui]`
and `[tmux]`; each one that is absent keeps its default. `[api.extra]` is merged
straight into the request body.
