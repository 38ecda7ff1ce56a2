# ff

`ff` keeps the sources of Nix derivations up to date. `F.toml` names each source with a spec such as
`github:owner/repo` or `https://example.com/file.tar.gz`; `F.lock` holds the revision that the spec
stood for when it was last looked up, and the hash of what was fetched.

- `src/` is the library: every decision that locking a source takes, written in Verus and proved
  against its contracts. It sends nothing and reads no file. Where a question has to be asked or
  content has to be fetched, it hands out a value that says so and takes the answer back.
- `app/` is the program: it reads and writes the two files, asks GitHub and web servers, and runs
  `nix`.
- `tests/` runs the library on examples.

What holds of the library as a whole is stated in the `law_*` functions: in `src/run.rs` for locking
one source, in `src/sources/github/laws.rs` for finding a revision on GitHub, in
`src/nix_prefetch.rs` for following a fetch, in `src/writer.rs` for the log, and in `src/report.rs`
for what is told at the end.
