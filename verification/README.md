# gestor_pastas_militares

Desktop tool that sends documents to, and fetches folders from, a shared
network folder organised by the registration numbers ("matrículas") of
service members.

- `src/` — the verified library (Verus): parsing and normalising registration
  numbers (`matricula`), folder names, folder lookup and copy policies
  (`filesystem`), settings (`config`), error messages (`errors`), text helpers
  (`texto`), and what each interface command decides (`commands`), including
  the step-by-step send of one file to many destinations (`commands::enviar`).
- `app/` — the desktop program: Tauri commands, disk access, the settings file
  and the serialisable copies of the library's types.
- `tests/` — tests of the library.
