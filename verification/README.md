# oss_emulator

A lightweight emulator of an Aliyun OSS-style object storage service, with
its request handling logic verified by Verus.

## Layout

- `src/` — the verified library.
  - `request.rs` classifies a request (method, path, query, headers) into a
    command, bucket and object; `server.rs` routes the command to a handler.
  - `handlers.rs` and `handlers/` hold each handler's decision: given what was
    read from the store, the changes to make (`Effect`) and the answer.
  - `storage.rs` lists a bucket's objects page by page, picks the buckets and
    the pending multipart uploads among directory entries.
  - `range.rs` and `form.rs` read byte ranges and `multipart/form-data` bodies.
  - `bucket_config.rs` stores and renders the logging, website, referer and
    lifecycle configuration of a bucket.
  - `response.rs` shapes every reply (status, headers, body document).
  - `params.rs`, `text.rs`, `error.rs`, `models.rs`, `config.rs`, `cli.rs`
    hold the supporting types, text helpers, errors, records and settings.
- `tests/` — tests of the library on concrete values.
- `app/` — the program: command line, settings file, the HTTP server, the
  store on disk, and the TOML and XML forms of the library's records.
