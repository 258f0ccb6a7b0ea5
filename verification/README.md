# error_book

An AI-assisted error book for school work: photographs of wrong answers are
analysed by a language model, stored with embeddings, summarised per period,
turned into practice sets and rendered to PDF. It runs as a command-line tool
and as an MCP server over stdio.

## Layout

- `src/` — the library, verified with Verus. It holds the logic of the
  application: configuration resolution (roles, providers, HTTP profiles,
  environment overrides), prompt construction, request planning and retry
  policy for the model clients, the multi-stage analysis pipeline as a state
  machine, JSON extraction, repair and diagnosis for model replies, practice
  planning and batching, the Typst markup of practice sheets, backfill
  decisions, and the image-generation and download policies. Contracts are
  stated over `Seq`/`Map`-level models; laws that relate several functions are
  public proof functions next to the code they speak of.
- `tests/` — tests of the library on concrete values.
- `app/` — the program around the library: command-line parsing, file and
  network I/O (reqwest, libsql, Typst), serde shapes of the JSON and TOML
  formats, and the MCP server. It hands plain values to the library and acts on
  what the library decides.
