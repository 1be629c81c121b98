# Chikachika

A local overlay editor for streaming tools. Overlays are ordered collections
of text widgets on a fixed canvas; a local web server hosts each overlay as a
browser source that follows every change.

This crate is the verified core, written in Verus:

- `src/` is the library. Every function has a contract over mathematical
  models (sequences, maps, integers, the views of the library's types) and is
  proved by Verus: the overlay model and its validation, the identifiers, the
  versioned document and settings formats, the hosting hub's delivery
  revisions, the workspace coordinator with its selection and dirty state, the
  editing forms, startup decisions, error texts and the browser page.
- `app/` is the program around it: files, the console, the web server and the
  decimal writing of floating-point numbers, which the library leaves to it.
- `tests/` runs the library on concrete scenarios.
