# oxicop

A Ruby linter: cops that check Ruby source text for layout, style, lint,
naming, metrics and security offenses, verified with Verus.

- `src/` is the library. Every cop states, as a spec function over the file's
  lines (`SourceView`), exactly which findings it reports, in which order, at
  which line and column, with which message; its `check` is proved to return
  those findings stamped with the cop's name and severity.
  - `source.rs`: source files, their path and file name (the final
    `/`-separated component, as `Path::file_name` names it), their lines (as
    `str::lines` splits them) and the scan that tells code from strings and
    comments.
  - `pattern.rs`: regular expressions, through the `regex` crate.
  - `rule.rs`, `scan.rs`, `seen.rs`: the shapes shared by many cops.
  - `offense.rs`, `cop.rs`: findings, offenses (ordered by position, and
    given a configured severity), categories, severities and the `Cop` trait.
  - `config.rs`: the per-cop settings of a `.rubocop.yml`, and the
    `AllCops: Exclude` glob patterns. The settings table, and the table of
    method names `lint.rs` has seen (`seen.rs`), are vectors whose keys are
    kept distinct as a type invariant: a `HashMap` with string keys has no
    contract here that would let lookups after inserts be proved.
  - `cops/mod.rs` and the `all_*_cops` functions state, position by position,
    the name, category and severity of every cop they return.
  - `cops/`: the cops, by category.
- `app/` is the command-line program: it finds files, reads them and the
  configuration, runs the cops on the files in parallel threads and prints
  the offenses.
- `tests/` runs the library on concrete Ruby snippets.
