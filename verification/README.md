# tmprocs

Runs the processes of an `mprocs.yml` / `tmprocs.yml` file in tmux and lists
them in a terminal interface. Each process runs in a hidden window of the
current tmux session; the selected one is joined into the window of the list.

- `src/` is the library, verified with Verus. It does no input or output: an
  operation is a function of the replies received so far that gives the next
  request or the result. `src/laws/` states what holds of the operations taken
  together.
- `app/` meets the requests: it runs commands, reads files, draws and listens to
  the terminal.
- `tests/` runs the library on given values.

Keys: `↑`/`k` up, `↓`/`j` down, `Enter` focus, `s` start a dead process,
`r` restart, `x` kill, `q` quit.
