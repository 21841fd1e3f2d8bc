# ferrosonic media cache

A size-capped, least-recently-used cache of downloaded media files, whose
decisions are proved with Verus.

- `src/` is the verified library. It decides and never acts.
  - `path` and `text`: paths as bytes, decimal and hexadecimal text.
  - `config`: the settings of the cache, and where files are kept.
  - `media_cache`: the cache itself. `name` makes file names, `listing` reads a
    directory, `eviction` picks what goes, `transfer` and `adoption` are the
    steps of a download and of a local copy, `error` and `size` are texts.
  - `daemon`: what a play of a song comes to.
- `app/` carries the decisions out, on a Unix filesystem and over HTTP.
- `tests/` runs the library on concrete values.

What the library rests on without proof: `md5::compute` is a function of its
input, `dirs::config_dir` and `dirs::cache_dir` return, and `String::push`
appends.
