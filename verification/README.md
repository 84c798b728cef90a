# wmgr

A workspace manager for many repositories, described by one YAML manifest.

- `src/` is the library, written in Verus: the manifest model and its validation,
  merging and group filtering; Git URL normalisation and its security checks; the
  plans of commands each source control system (Git, Subversion, Perforce,
  Mercurial) runs and how their output is read; the decisions of HTTP, S3 and rclone
  downloads and of manifest file operations; credential resolution; the use cases
  (sync, status, foreach, audit) as decisions on what the commands report, and the
  audit report; and the command-line settings. Every function there carries a
  contract that Verus checks.
- `app/` is the `wmgr` program: argument parsing, file, process and network I/O,
  and the serde forms of the manifest, all handing plain values to the library. Its
  commands are `init`, `sync` (Git, Subversion, Mercurial and Perforce
  repositories, and nested workspaces), `status` (Git working copies), `foreach`,
  `audit` (with `cargo audit`), `log`, `dump-manifest` and `apply-manifest`.
  Downloads over HTTP, S3 and Google Drive and the manifest's copy and link
  operations are decided by the library but not run by the program.
- `tests/` exercises the library through its public API.
