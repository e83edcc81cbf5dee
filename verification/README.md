# ion-shell

The core of a shell, verified with Verus: its variables and how they are expanded, how a pipeline
is run, how commands, scripts and functions are executed for a program, and how the shell is forked.

- `src/` is the library. It decides and computes; it touches no file, process or terminal. Where a
  decision needs the outside world, a method of `Shell` is a dialogue: it answers an event with the
  action to perform, and the outcome of the action is the next event.
- `app/` performs these actions. The rest of the program (built-in commands, parser, process control,
  line editor) is handed in through its traits `Host` and `History`.
- `tests/` runs the library on concrete values.

| module | contents |
| --- | --- |
| `shell` | the state of a shell, its variables as callers see them, expansion of arrays, maps and strings |
| `run` | the run of a pipeline: aliases, built-in commands, functions, summaries, exit status |
| `execute` | commands, scripts, functions and the file of initial commands |
| `process` | forks, captured output, signals, working directory, exit |
| `variables`, `error`, `text` | variables, errors with their texts, numbers and lines |
| `collections` | the small vector and the hash maps that hold the values |
| `run_laws`, `fork_laws`, `dialogue_laws` | what holds of the whole course of a run, a fork and every other dialogue |
| `expansion_laws` | what holds of every expansion |

The proofs rest on the contracts of the wrappers in `collections` around `smallvec` and `fnv`, and on
the one for `String::push` in `text`.
