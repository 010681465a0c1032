# chiptui

The session logic of a terminal workbench for microcontroller boards, written
and proved in Verus: which pane hears a key, what a click lands on, which
question is asked before a board is erased, and in which order a newly attached
board is probed, identified and listed.

- `src/` is the library. `App` is the whole session; its contracts speak of
  `Model`, the same state with texts as sequences of characters. Every method
  says what the session becomes as a function of what it was, and appends what
  it wants done outside to a queue of `Effect`s.
- `tests/` runs the library on concrete sessions.
- `app/` is the shell around it: terminal events in, effects out.

The laws the session keeps (erasing and restarting open on *No*, a live session
takes every key, foreign firmware is never listed, ...) are the public proof
functions beside the code they speak of, and in `src/app/*_laws.rs`.
