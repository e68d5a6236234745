# yoo

`yoo` is a small command-line companion for local development: a session
summary, an environment and project report, health checks, project
snapshots, a coding-session timer, tip packs and shell completions.

## Layout

- `src/` — the library, written in Verus. The tool's decisions are here with
  a contract: reading the command line and the configuration file, detecting
  a project, reading `go.mod`, the `[package]` section of `Cargo.toml` and
  (through `serde_json`) the `name`, `version` and `license` of
  `package.json`, interpreting Git's answers, the health checks and the exit
  they lead to, snapshot naming, ordering and comparison, tip-pack merging and
  ordering, the choice of an editor, and every line of text the tool prints. External commands (Git,
  compilers) are reached through a caller-supplied function, so the library
  states what holds for every answer they may give.
- `tests/` — tests of the library on concrete values.
- `app/` — the executable: environment variables, the file system, running
  external commands with a time limit, JSON and YAML (through `serde`), and
  writing the lines the library produces.

Laws that hold for all inputs are stated as public proof functions next to
the code they describe, for example that snapshots come out newest first and
unchanged as a collection, that tip packs come out sorted with each name once,
that `--json` never combines with display options, and that a Git failure or
timeout is never reported as a clean tree.

## Metadata that is not read

`Cargo.toml` is read with a small line-by-line reader that stays inside the
`[package]` table. It reads basic strings (escapes decoded), literal strings
and decimal integers, with trailing comments ignored; multi-line strings,
dotted keys and inline tables are not read, and a line it cannot read is
passed over. Fields inherited from `[workspace.package]`
(`version.workspace = true`) are not resolved. `pyproject.toml`, `pom.xml`,
Gradle and .NET project files are detected but their metadata is not read:
there is no TOML or XML parser among the dependencies.
