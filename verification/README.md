# devtools

A small collection of developer tools, with their logic verified by Verus.

Library (`src/`):

- `json_viewer`, `json_parse`, `json_laws`, `json_format`: a single-pass
  reader that turns JSON text into a flat metadata tree, navigation over that
  tree (next/previous shown value, depth), and a pretty-printer. The reader is
  proved to produce well-formed trees, and moving forward then back (or back
  then forward) between shown values returns to the start.
- `cli`, `installer`: command-line parsing with options that take themselves
  from the argument list, subcommands, help, and the options of an installer
  of static executables.
- `toolbox`, `sections`, `text`: help text grouped by section, and flags.
- `html_attributes`, `html_elements`, `html_render`: typed HTML elements and
  their indented rendering. Elements own their children in `Vec`s and their
  text in `String`s from the standard library; no arena allocator is used,
  since none is available to the build.

Programs (`app/`): `json-format`, `json-stats`, `install`, `html-example`,
`serve` and `serve-tls`, selected by the first argument.
