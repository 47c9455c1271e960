# gdcef

The decision logic of an off-screen CEF browser for Godot, written in Verus, and
the CEF handlers around it.

- `src/` is the library. Each browser callback is a function from plain values
  and the state that the application has locked to the new state and a reply;
  its contract says exactly what both are. Properties that span callbacks are
  proof functions: those on the event queues in `event_laws`, those on
  permission requests in `permission_laws`, the others beside what they are
  about.
- `app/` holds the CEF handlers. They read the browser's objects, take the
  locks, compute in floating point, and call the library.
- `tests/` runs the library with the real `adblock`, `cef` and `wide` crates.

What is believed without proof of those crates stands in `codes`, `pixels` and
`adblocking`, each item with a comment on the function that it calls.
