# qmlrs

A binding to Qt's QML engine whose decisions are verified with Verus.

- `src/` is the verified library. For every operation on an engine, a meta
  object or an object it builds the exact call that the C wrapper around Qt
  receives (`request::Request`), with string arguments as the wrapper takes
  them (`text::QtStr`). It models the meta objects that users declare, with
  the method indices that signals, slots and methods receive, and it holds
  the rules by which invocations reach the slots of an object (`dispatch`).
- `app/` owns the wrapper's engines, meta objects and objects and performs
  the calls that `src/` decides.
- `tests/` exercise the library on concrete values.
