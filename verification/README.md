# token_analyzer

Finds where a named secret (an API key, a token) is used in a code base, how
risky each file that uses it is, and whether its value is exposed there:
hardcoded, printed or logged, or held in an environment or configuration file.

## Layout

- `src/` is the library, written in Verus. Every function has a contract, and
  Verus proves the code against it. It works on text: the paths and contents
  of files, the arguments of the command line, and the report's lines.
  - `text`, `paths`, `pattern`: lines, trimming and byte cuts of text; file
    names, extensions and components through `std::path`; regular expressions
    through the `regex` crate.
  - `risk`, `config`: the risk level of a file from its path; the analysis
    presets.
  - `scan`: the analysis of one file's text, stated line by line as a spec
    function (`file_analysis_of`) that the code is proved to compute.
  - `report`, `analyzer`: per-file findings and the report over them, with the
    stable order by risk; the request checks, the choice of files during the
    directory walk (`walk_step`), and the analysis of files held in memory.
  - `cli`, `render`: the command line, path shortening, and the lines of the
    text report.
  - `laws`: properties that hold of every analysis, proved from the contracts.
- `app/` is the command-line tool: it walks the directory with `ignore`, reads
  files in parallel with `rayon`, computes the Shannon entropy of candidate
  values (floating point), and prints the report as text or JSON.
- `tests/` runs the library on concrete inputs with the real `regex` crate.
