# leptos_react

A bridge between Leptos views and JavaScript (React) callers, with its decisions verified
by Verus.

- `src/` is the verified library: the model of the JavaScript values that the bridge reads
  (`js_value`), their conversions and the errors of callback calls (`functions`), what a
  view does with a callback's outcome (`callback`), the state of contexts and mounted views
  (`context`), and the TypeScript declarations of callbacks (`typescript`).
- `app/` holds the parts that run in the JavaScript host: the `wasm_bindgen` classes
  `LeptosContext` and `LeptosMountHandle`, the reading of `JsValue`s into the library's
  model, the JavaScript function types, and the `wrapper!`/`insertion!` macros.
- `tests/` runs the library on concrete values.
