# omnia_plugin

The verified core of a WebAssembly plugin loader and of the route handling of
a guest macro, written in Verus.

- `src/digest.rs`: `sha256:<hex>` digests of bytes; canonical operator pins.
- `src/subpath.rs`: plain relative subpaths; the location that serves a path.
- `src/loader.rs`: the load sequence as a step function from what the
  registry, the acquirers and the admission seam reported to the next action.
- `src/package.rs`: exact `namespace:name@version` references; the checks on
  registry and store answers.
- `src/fetch.rs`: one registry fetch as a step function: release resolution
  with the stored-record fallback, the store as a cache, verification.
- `src/declared.rs`: declared locations and the acquirer slots they fill.
- `src/routes.rs`: route parameters, route options, handler shapes.

`app/` holds the asynchronous drivers, the file and network I/O, and the
token handling of the macros. The drivers hand each step of the library the
outcome of the action it asked for, store failures included, and act on its
answer.
