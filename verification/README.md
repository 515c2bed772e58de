# bloggyblog

A small blog engine that serves Markdown articles and images kept in a GitHub
repository, with a verified core.

- `src/` is the library, verified with Verus: entry identifiers and their text
  (`entry_id`), the configuration, from defaults and given settings
  (`settings`), indexes (`index`),
  mirror URLs (`remote`), articles (`article`), images and their orientation
  (`image`), and what each web page answers for the data it was handed
  (`pages`).
- `app/` is the program around it: the command line, the configuration file and
  environment (`BLOGGYBLOG_CONFIG`, `bloggyblog.json`, `BLOGGYBLOG_<NAME>`),
  file and network I/O, JSON,
  the caches, image decoding and WebP encoding, and the axum server.
- `tests/` exercises the library on concrete values.
