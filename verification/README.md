# gemcut

A formatter for Ruby source, written in Verus.

The library parses a program with the prism parser, carries prism's syntax
tree into a tree of its own (`syntax`), and prints that tree by fixed rules:
two spaces per indentation level, one blank line kept where the source has
blank lines, comments re-emitted on lines of their own, call chains and
arrays broken over lines when they would pass the maximum width (the column
counted in characters), hashes broken one pair per line where they have more
than two pairs or their source spans several lines, index calls kept as
`x[i]`.

## Layout

- `src/layout.rs` states the printing rules as spec functions from a printer
  state to the next.
- `src/formatter.rs` and `src/formatter/` hold the printer; every printing
  method is proved to leave the printer in exactly the state the rules give.
- `src/laws.rs` proves what holds of every printing step: the output only
  grows, comments are taken in order, the indentation comes back, printing
  the comments up to an offset twice is the same as once, and a whole program
  printed without going wrong has had all of its comments printed.
- `src/parser.rs` is the bridge to prism; it is trusted, not proved.
- `src/text.rs` holds byte and UTF-8 helpers, `src/config.rs` the settings.
- `app/main.rs` is the command line tool: it walks a directory, reads
  `.gemcut.toml`, and formats or checks each `.rb` file.
