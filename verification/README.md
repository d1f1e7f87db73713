# php_sasso

The verified core of a PHP extension (`extension=sasso`) that compiles SCSS /
Sass to CSS in-process with the pure-Rust `sasso` compiler.

- `src/` is the library, verified with Verus:
  - `codes.rs`: the `STYLE_*` / `SYNTAX_*` codes, their checks and the exact
    error messages;
  - `decimal.rs`: decimal rendering of integers used in those messages;
  - `compiler.rs`: the fluent `Compiler` configuration, the compile plan
    (options and how imports are resolved), compilation without a userland
    importer (standalone or over the load paths) and the decision of what a
    finished compilation reports;
  - `bridge.rs`: the two-phase routing of `canonicalize` / `load` requests
    between a userland importer and the load-path fallback, as a step function
    from state and event to next state and action;
  - `engine.rs`: the calls into `sasso` (with no importer, or with its
    filesystem importer over the load paths);
  - `laws.rs`: properties that span several steps.
- `app/` is the PHP binding (ext-php-rs classes, the `Sasso\Importer`
  interface, the module) and the compilation through a userland importer,
  whose calls go into the PHP VM.
- `tests/` exercises the library on concrete values.

Compiling does not always return: the `sasso` compiler puts no depth limit on
calls of user `@function`s and `@mixin`s, so a stylesheet whose function calls
itself without end overflows the stack and aborts the process. The library's
contracts hold for every compilation that returns.
