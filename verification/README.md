# widgets

A small GUI toolkit core, verified with Verus.

`src/` is the verified library:

- `geometry`: integer points, sizes, rectangles (containment, intersection,
  clipping, merging, borders) and the `Bounds`/`BoundsMut` traits; `geometry::laws`
  holds the properties that relate its operations.
- `layout`: placing objects relative to others (`Layout`), `foreach` and the row
  flowing `flow_horiz`, specified by `flow_result`.
- `event`: buttons, keys, modifier and mouse button state, event results, and the
  decisions of the event dispatcher (`DispatchState`, the placement of children in
  window coordinates).
- `draw`: texture ids, the draw context of a widget, the batching draw queue and what
  rendering it does command by command, color packing and scissor boxes.
- `backend`, `font`, `image`: texture tables and errors, font sources, the font cache
  and the parsing of font data, pixel formats and image buffer sizes.
- `fields`: choosing the field of a type that holds a value of a given type, as the
  toolkit's derives do, and their error messages.
- `widget`: id counters, widget ids and the empty widget.
- `toplevel`: window sizing and main loop decisions.

`app/` holds what runs around it: colors and images (floating point), input events
with pointer coordinates, the widget tree and its dispatching, windows, the winit
main loop, text alignment and font handles, texture upload, the shared OpenGL
resources (textures and fonts) and rendering.
