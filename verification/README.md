# beach

An interpreter for *beach*, a small language with unsigned integers,
booleans, variables, functions, `if` statements and a `print` function,
verified with Verus.

A program's text is cut into tokens (`parsing`), parsed into a syntax tree
(`token_stream`, built with the builders of `ast`), type checked
(`type_checking`) and evaluated (`evaluation`). `cli` holds the decisions of
the command line program: which command a name selects, the help text, the
arguments of `run`, and running a program's text from end to end.

Each stage is specified over mathematical models of its input:

- `parsing::lexing` states how text is cut into tokens;
- `token_stream::grammar` states the grammar and the messages of parse errors;
- `type_checking::rules` states the typing rules and the messages they report;
- `evaluation::semantics` states the evaluator as a fuelled big-step semantics.

The executable code of each stage is proved to compute what its specification
states. Properties that relate several operations are proved as `law_`
functions: tokens are well placed and in text order, variables read back what
they were declared with, a larger evaluation budget changes nothing, the type
checker returns exactly where the calls it needs resolve, and command names
ignore ASCII case.

`app/` holds the command line program: it reads arguments and files and
prints what the library computes.
