# rustyfiles

A static file and image cache server. Files and images are served from a
store (a local directory or an S3-compatible bucket); on a miss they are
fetched from their origin host, kept in the store, and, for images,
converted to WebP or AVIF and resized as the request path asks.

## Layout

- `src/` is the verified core, written with Verus. Every function there has
  a contract that Verus proves, except ten small trusted wrappers around
  outside crates (`urlencoding`, `url`, `http`, `mime_guess`, `image`) and
  `String::push`. Their contracts are taken from those crates' sources and
  documentation; where a result takes pages to describe (a URL's parse, a
  MIME table, an image's encoding) it is named rather than restated.
  - `text`: the character-sequence model (split, join, trim, number parsing)
    the rest is stated over;
  - `utils`: request paths and object keys, URLs, the SSRF guard and the
    fetched URL, cache headers, image formats, decoding within the
    configured dimension limits;
  - `storage`: store errors and their statuses, local-directory keys that
    stay under the root, S3 keys, and the headers an object is served with;
  - `env`: parsing of the configuration, the store it asks for, and the
    server state;
  - `services`: the file and image request pipelines as step functions from
    state and event to next state and action, with their laws.
- `app/` is the server around it: `main`, reading the environment, the HTTP
  routes, the stores, the HTTP client and the image codecs. It runs the
  pipelines' steps and hands their results back.
- `tests/` exercises the library from outside.
