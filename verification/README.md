# lotus_compiler

The front end of the compiler of the Lotus language, written in Verus: every
function of `src/` carries a contract that Verus proves.

Type checking and code generation are not in this library. Where the compiler
decides something while it checks types or generates code (which errors a
declaration reports, how a `match` branch tests its value, what a `for` loop or
a `return` compiles to), the decision is here, as a function from what the
type checker knows (flags, counts, kinds of types) to a plan; the type checker
and the code generator that would act on those plans are not.

- `src/reader.rs`: the reader of source text (blanks, line comments, literal
  tokens, item locations) and its specification over bytes.
- `src/items/`: grammar items (keywords, operators, brackets, identifiers,
  literals, macros, control-flow statements), each with a `parse_item` whose
  contract states what it reads, and the decisions that the compiler takes on
  them and on declarations, calls, blocks, loops and `match`.
- `src/command_line/`: command-line options and the search for a project's
  root directory, as steps that the caller drives over the file system.
- `src/completion/`: completion entries, lists and areas for an editor.
- `app/`: the command-line driver (arguments, file system, timing).
- `tests/`: tests on concrete values.
