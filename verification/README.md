# v8js

A PHP extension that runs JavaScript in the V8 engine, split in two:

- `src/` is the verified library (Verus). It holds the mapping rules between
  PHP and JavaScript values (`convert`, over the value models in `values`),
  the table of named values behind user properties, callbacks and CommonJS
  modules (`table`), the runtime state and the decisions taken while a script
  runs under time and memory limits (`runtime`), the `V8Js` object's
  bookkeeping and the JavaScript functions that call back into PHP (`bridge`),
  and properties that relate several operations (`laws`).
- `app/` is the extension itself: it talks to V8 and to PHP, reads their
  values into the library's models, performs what the library decides, and
  builds the values the library asks for.
