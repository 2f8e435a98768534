# paintcannon

The verified core of a terminal renderer that exposes a small DOM to
JavaScript. The library (`src/`) is written in Verus. Its functions carry
contracts that Verus proves, except a handful of small trusted wrappers
(marked `external_body`) that call `String::push`, `collect`, and the
Unicode segmentation and colour conversion of the `unicode-linebreak`,
`unicode-segmentation` and `termprofile` crates; their contracts state what
those calls return.

- `frame`, `clip`, `border`, `composite`, `frame_output`: cell frames, clipping,
  box borders, selection, layer compositing decisions, and the spans and
  attribute changes that redraw a frame.
- `input`, `native_event`, `notification`, `schedule`: terminal key, mouse,
  focus and resize reports turned into DOM-style events; the ordered event
  queue; coalesced "events available" notifications; frame and poll deadlines.
- `api`, `style_property`, `style_value`, `style_keyword`, `transition_value`:
  batches of DOM commands rewritten to renderer commands with real element
  ids, style commands with their values read by each property's grammar
  (keywords, numbers, lengths, colours, shorthands, transitions), and the
  engine's results in the shape JavaScript reads.
- `engine`: the renderer's DOM (the node tree, what each node holds, and how
  dirty the next frame is) and the command dispatcher that changes it.
- `terminal_output`: the escape text that draws a frame.
- `line_break`, `geometry`: line-break and grapheme planning over the Unicode
  algorithms, rectangles, pointer clamping, scrolling and white-space rules.

`app/` holds what Verus does not take: the JavaScript shapes of the
library's values, the terminal input thread, the notification callback, the
renderer thread that feeds commands to the engine, writing frames to the
terminal, and blending colours by fractional opacity. Layout, painting of
the DOM and the JavaScript class itself are not part of this crate. `tests/` runs the library on concrete
inputs.
