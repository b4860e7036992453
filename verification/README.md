# weylus

A verified core for a server that turns a tablet or phone browser into a
graphics tablet and touch screen for a computer, and mirrors the screen back.

`src/` is the library, checked with Verus. Each module states its behaviour in
`requires`/`ensures` contracts over mathematical models, and the properties
that span several calls are proof functions:

- `web`, `network`: authentication by access code, routing, the address and
  URL shown to browsers.
- `client`, `cerror`, `video`: what a client's configuration request sets up,
  error codes, the per-client video loop.
- `uinput`, `keys`, `pointer_device`, `macos_tablet`, `protocol`: how browser
  pointer, wheel and keyboard events become device events.
- `portal`, `frame`, `drm`, `geometry`, `config`: screen-cast negotiation,
  frame buffers, DRM modifiers, output geometry, capture options.
- `yuv`, `testsrc`, `capture`, `input_area`, `text`: colour conversion, the
  synthetic test source, capture sources, the input-area window, strings.

`tests/` exercises the library on concrete values. `app/` is the program
around it: command line and configuration file, logging, the HTTP and
websocket server, and the per-client threads.
