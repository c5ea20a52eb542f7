# Circumvention Chronicles

The rules of a puzzle game about filter circumvention, verified with Verus.
The game is played in a desktop window and in a browser that talks to a web
server on `localhost:9622`.

- `src/` is the verified library: the window's game state, the levels with
  their texts and buttons, how the web server answers in each level, the
  made-up paths and cache dumps of the cache puzzle (drawn with `rand`), and
  the laws that tie them together (the puzzles can be solved, the game never
  goes back, and so on).
- `app/` is the program around it: the conrod/piston window, the hyper
  server, file reading, the connectivity probe and the browser launcher.
- `tests/` runs the library on concrete values.
