# Eloran

A comics and ebook web library: periodic scans of library directories,
covers, an ebook and comic reader, bookmarks and reading status per user.

- `src/` is the library, verified with Verus: configuration (`conf`), text
  primitives (`text`), records (`model`), HTML building blocks and pages
  (`html`, `pages`), dates (`dates`), stable sorting of listings (`sort`),
  SQL text and the per-file lists of users (`storage`), the scanner's
  decisions (`scan`), passwords (`auth`), images (`images`), the request
  handlers' decisions (`web`) and the laws that tie them together (`laws`).
- `app/` is the program: logging, the SQLite storage, the walks on disk,
  archive, PDF and epub reading, and the axum server.
- `tests/` runs the library on concrete values.
