# tauritavern

The decision logic of the TauriTavern desktop shell's settings and update
services, verified with Verus.

- `src/version.rs` — reading a version out of a release tag, and comparing
  dotted versions component by component; with the laws of the comparison
  (irreflexive, asymmetric, transitive, total up to zero padding).
- `src/update_service.rs` — the update check as two steps around the fetch
  of the latest release, with a cache whose lifetime comes from the settings.
- `src/github_update_repository.rs` — token choice, request headers, error
  reports and the conversion of GitHub's release record.
- `src/settings_service.rs`, `src/settings_dto.rs` — patching the shell
  settings with validation, and assembling the start-up response.
- `src/text.rs` — whitespace, trimming and substring search on characters.
- `app/` — the asynchronous services: repositories behind async traits, the
  HTTP request, the monotonic clock and the lock around the cache.
