# mfekglif

The verified core of a glyph editor for UFO `.glif` files, written in Verus.

`src/` is the library, every function of it checked by Verus against its
contract:

- `command` — the editor's commands, their categories and names, keyboard
  modifiers read from names such as `CtrlShiftMod`, and (`command::keymap`)
  key bindings read from an XML file.
- `xml`, `text`, `numparse` — a plain XML tree (read with `xmltree`),
  character helpers and the integer reading that `.glif` files need.
- `glifparser` — the glyph model and the `.glif` reader. Coordinates are a
  type parameter; the reader hands them over as text.
- `layer` — the layered glyph, guidelines and the set of selected points.
- `editor` — the editor state: modifications with undo and redo, layers,
  selection (cut, copy, paste and the clipboard's text frame), joining
  contours, tool behaviors, width and metrics guidelines.
- `events` — the tools (pen, select), the command console, the toolbox and
  the variable width stroke settings.
- `reclutch_skia` — the drawing targets and their errors.

Laws that span functions are public proof functions named `law_*`.

`app/` is a command-line front end: it loads a `.glif` file, reads the key
bindings, and takes console commands (`:vpoffset 10 20`, `:q`) and key
presses (`key Ctrl+Z`) from standard input. Coordinates become numbers there.

`tests/` exercises the library through its public interface.
