# trefm

A terminal file manager's core, written in Verus: the file listing and its
sorting and filtering, navigation history, bookmarks, the action registry and
keymap, the preview texts (text, tree, markdown, syntax highlighting, images,
PDFs), duplicate detection, git status mapping, remote (SFTP) browsing state,
and the whole state machine of the terminal UI, each stated as contracts over
mathematical models and proved.

Layout:

- `src/` — the verified library. Calls into outside crates (syntect,
  pulldown-cmark, fuzzy-matcher, sha2, unicode-normalization) and into parts of
  std without a Verus specification stand behind small wrappers whose
  contracts are trusted; everything else is proved.
- `tests/` — tests of the library on concrete values.
- `app/` — the program around it: terminal drawing, file and network I/O,
  background scans and the event loop, which performs the effects the
  library's state machine asks for.
