# taste

A small language/format detector, verified with Verus.

Given a path, the head of a file, an in-memory buffer or a bare token,
`taste` names the language and says how it found it (exact file name,
override rule, shebang, extension or token) and how sure it is.

Layout:

- `src/info.rs`: the registry, one record per language, with its spec twin
  `registry()` and the laws about it (records sit at their language's
  ordinal; canonical names are lowercase and unique; no alias is a
  canonical name).
- `src/language.rs`: `Language`, `LanguageId` and the metadata accessors.
- `src/rules.rs`: the override rules and the glob matcher, with its
  specification `glob_spec` and laws.
- `src/detect.rs`: path normalization, registry lookups, shebang parsing and
  the detection functions, each specified by a spec function
  (`parts_finding`, `buffer_finding`, `token_finding`), plus the laws that
  relate them.
- `src/text.rs`: character-level helpers (case folding, prefix/suffix/run
  search, word splitting).
- `app/lib.rs`: the filesystem front end (`Path` handling and reading the
  first bytes of a file).
