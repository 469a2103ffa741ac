# exiftool-rs-wrapper

A wrapper around the ExifTool command-line program, which it keeps running
in `-stay_open` mode and talks to through its standard input and output.

- `src/` is the verified library (Verus). It holds what can be stated
  without running ExifTool: the argument list of every query, write and
  file operation; the framing of commands and the reading of responses;
  the batch-script language and the interactive shell's commands; the
  comparison of metadata; the bookkeeping of retries, batches, progress
  and statistics. Each public function has a contract, and the laws that
  tie functions together are proof functions named `law_*`.
- `app/` is ordinary Rust: the ExifTool process itself, files, threads,
  the asynchronous API, values that hold floating-point numbers (tag
  values, GPS coordinates, retry backoff), serde types, and the
  command-line tool.
- `tests/` exercises the library on concrete values.
