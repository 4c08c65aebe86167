# gemini-client

A client library for the Google Gemini generative language API, verified with
Verus, together with the prompt improver and the Gemini command-line program
built on it.

## Layout

- `src/` — the library, every function of it verified:
  - `types/` — content and parts, generation configuration, tools, safety,
    responses, vision results, JSON schema builders and prompt texts;
  - `client/` — the client's configuration, its requests and responses, the URLs
    and bodies it sends, how it reads API errors, batch jobs and server-sent
    events, the JSON body of video generation, MIME types and the upload log;
  - `cli/` — the logic of the two programs: messages in English and Chinese,
    the draft prompt, the number of versions, commands and the chat's decisions;
  - `json.rs` (JSON values), `encoding.rs` (base64), `text.rs` (strings),
    `time.rs` (ISO 8601 dates), `error.rs`, `models/` (model names and limits).
- `tests/` — tests of the library on concrete values.
- `app/` — the program around the library: HTTP requests with `reqwest`, JSON
  with `serde`, files, the environment, printing, and the few computations done
  in floating point. `prompt-improver` runs the prompt improver;
  `prompt-improver gemini <COMMAND>` runs the Gemini command-line program.

## Environment

| Variable | Meaning |
|----------|---------|
| `GEMINI_API_KEY` | The API key (required). |
| `GEMINI_MODEL` | The default model. |
| `PROMPT_VERSION_COUNT` | Number of prompt versions (default 3, from 1 to 10). |
| `HTTPS_PROXY`, `HTTP_PROXY` | A proxy. |
| `LANG`, `LANGUAGE`, `LC_ALL` | Chinese messages for a locale starting with `zh`. |
