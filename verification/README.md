# cdn

FerrisChat's CDN. A storage node keeps uploaded files zstd-compressed under the
lowercase hex SHA-512 digest of their content plus their extension, and serves
them at `{host}/uploads/{node_id}/{name}`; the user-facing server sends each
upload to a random registered node and serves downloads, from a cache where
caching is on.

- `src/` — the verified library: error responses (`errors`), compression
  (`codec`), uploads (`upload`), downloads (`download`), talking to nodes
  (`remote`), settings (`config`), the node identity (`node`), token
  verification (`auth`), command-line arguments (`cli`), text helpers (`text`).
- `app/` — the program around it: HTTP routing, Redis, Postgres, the cache,
  the filesystem and the command line.
- `tests/` — tests of the library on concrete values.

Setup: in Redis, `SET max_content_length {bytes}` (10 MiB where unset) and
`HSET cdn_nodes {node_id} {node_ip}`; in the environment, `FC_CDN_HOST`,
`FC_CDN_UPLOADS_PATH`, `FC_CDN_REDIS_URL`, `FC_CDN_DATABASE_URL`,
`FC_CDN_CACHE` (caching is on unless set to something other than `true`) and
`FC_CDN_CACHE_SIZE` (a quarter of the machine's memory by default).
