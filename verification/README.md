n4dlapi
=====

A download API server for game assets (NPPS4 Download API, version 1.1). The
decisions that the server makes are a library verified with Verus; the program
around it does the input and output.

- `src/` is the verified library. Every function states in its contract what it
  returns for every input that it takes; two helpers ask something of their
  input (`headers::header_str`, `text::text_of`).
  - `config` decides who may use which endpoint.
  - `handlers` says what each endpoint asks of the archive and what it answers.
  - `urls` builds download links, `paths` brings names and paths from requests
    into a safe form, `catalog` chooses versions and packages, `layout` says
    where they are in the archive.
  - `server` holds the routes, the settings from the environment and what the
    server says of itself.
  - `models`, `reply`, `headers` and `text` are the data and the primitives.
  - `laws` states and proves what holds of the library as a whole.
- `tests/` runs the library on concrete values.
- `app/` is the program: configuration file, archive on disk, HTTP.

What is believed without proof is declared where it is used: reading a header
(`headers`), and `String::push`, `String::from_utf8` and `str::to_lowercase` of
the standard library (`text`, `paths`).
