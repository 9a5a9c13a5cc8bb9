# knukki

A small retained-mode GUI toolkit whose decisions are verified with Verus.

- `src/` is the verified library: render regions and their intersections,
  mouse and button bookkeeping, component subscriptions, the decisions of
  event dispatch (who gets a click, how a mouse move is split into enter,
  move and leave events), menu planning, the stack of viewports and
  scissors, the least-recently-used shader cache, fragment-only shader
  descriptions (hashed with SHA-256 through the `sha2` crate) and the
  mouse bookkeeping of a desktop window.
- `tests/` holds the tests of the library.
- `app/` is ordinary Rust around it: floating-point geometry (points,
  drawn regions, component domains), the component traits and the menu
  and application that carry out the verified plans, the golem renderer,
  and the glutin window that feeds events to the application.

Not carried over: the text renderer and its fonts (`create_text_model`,
`draw_text_model`, text positioning, the included, system and web fonts,
`CharTexture`), and the components that draw with them or with shaders
(`HoverColorCircleComponent`, `TextButton`, and the rendering of
`SimpleTextComponent`). They rest on a texture atlas and a font file that
are not part of these sources. Of the text renderer, the integer work
(element indices of quads, the distinct atlas indices and their counts) is
in `src/text.rs`. golem 0.1.7 has no scissor call, so the scissor stack is
kept but not passed on to OpenGL.
