# opensi_core

The model of SIGame question packages (`.siq`, formats 4 and 5) and the
editing logic of the OpenSI editor, verified with Verus.

- `src/` — the verified library: node indices (`node`), the generic editing
  operations on the round > theme > question tree (`package_trait`) and
  their laws (`edit_laws`), resource handles and lookups (`resources`,
  `v4::atom`, `v5::package`), the archive layout and its read-after-write
  law (`archive`), percent-encoding of resource names (`encoding`), new
  package identity (`identity`), the v4/v5 data types, and the editor's
  labels, names and edit actions (`editor`).
- `app/` — serde copies of the package types, the XML form of
  `content.xml`, and file-system access for `.siq` files.
- `tests/` — tests of the library on concrete values.
