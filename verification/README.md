# photo_handler

A verified core for a desktop photo library manager. Media are imported from a source
folder into a protected library: the library folder keeps only copies, dated folders and a
state folder with an encrypted SQLite catalogue whose key is sealed under the password and a
recovery answer.

`src/` is the library, written and proved with Verus:

- `library` — setting up, unlocking, locking, resetting and cleaning the protected library;
  the session; the catalogue migration plan.
- `keys` — sealing the catalogue key with Argon2id and AES-256-GCM, and opening it again.
- `import_source` — choosing and remembering the folder whose media are reviewed.
- `review` — discovery, revisions of changed files, fingerprints, visual hashes, the next
  review item, and the import and skip decisions with the copy that an import publishes.
- `similarity` — the difference hash, Hamming distance and ranking of similar imports.
- `search` — filters, the catalogue query, tag lookup and the safety checks on managed copies.
- `tag_input` — the tag editor and the texts shown for metadata.
- `text`, `dates`, `paths`, `hexcode` — text, calendar dates, path operations and hex text.

`app/` is the command host around it: file system, SQLite and Trash work, JSON in and out.
`tests/` exercises the library on concrete values.
