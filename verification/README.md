# notypo

The native host of the Notypo Markdown editor (a macOS window around the
TypeMark editor page), split in two:

- `src/` is the verified library (Verus): the document and its TypeMark change
  counter, the recent-files list, the mounted folder, the file sidebar tree
  (listing, hiding dot-files, folders first and name order), the settings the
  page reads, asset paths and MIME types, the routing of bridge messages and
  synchronous calls, and the scripts the host runs in the page.
- `app/` is the macOS shell: Objective-C runtime calls (AppKit, WebKit), the
  file system, and the JSON exchanged with the page.

`tests/` runs the library on concrete values.
