# chart_engine

A candlestick chart engine for the browser. The verified library in `src/`
holds the engine's discrete logic with Verus contracts:

- `tabs`: the chart tabs, the active tab and their contexts;
- `board`: the drawings of a chart, the drawing in progress, selection, drag
  state and the undo/redo history (`history`); the selection always points
  at a drawing or is empty;
- `ids`: lists of indicators whose identifiers come from a counter and are
  never reused;
- `drawing`: drawing tools and the rules for grabbing and dragging them;
- `series`: search on the candle time axis, view re-anchoring, live candle
  updates and the visible window;
- `indicator`: averaging methods, price sources, the colour palette for new
  moving averages, identifiers and recalculation rules;
- `interval`: bar intervals;
- `path`: pen paths of indicator lines and band outlines.

`app/` is the WebAssembly front end: JavaScript interop through
`wasm-bindgen` and `serde-wasm-bindgen`, and the floating-point view math,
indicator values and rendering, which call into the library for every rule.
