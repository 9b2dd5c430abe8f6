# xiangxue_cocos

Writes Cocos Studio `.csd` scene documents from a tree of UI nodes, verified with Verus.

- `src/` — the library. `emit::CocosBackend::emit_document` states, as a spec
  function, the exact text it writes for a scene; `xml` holds the escaping and the
  indenting writer, `attrs` a string map, `text` decimal rendering, `cocos` the
  widget-kind tables, ActionTags and the project ID.
- `app/` — the command-line program for the `xiangxue` HTML front end. It resolves
  sizes, positions and fractions with `f32` arithmetic, renders them to text, and
  hands the resulting scene to the library.
- `tests/` — tests of the library.
