# yplayer

A terminal player for Yandex Music (ratatui front end, libmpv audio engine),
with its logic verified by Verus.

## Layout

- `src/` — the verified library:
  - `api/` — the service's JSON model (`json.rs`), the decoders of tracks,
    albums, artists and playlists (`decode.rs`), the decoding of whole
    responses (`responses.rs`), request paths (`paths.rs`), the sign-in
    helpers (`auth.rs`) and the signed download link (`download.rs`).
  - `app/` — the interface state (`state.rs`), the key bindings
    (`keybindings.rs`), what each action does (`actions.rs`) and the
    settings and saved token (`config.rs`).
  - `player/` — the playback queue with shuffle and repeat (`queue.rs`),
    the end-of-file bookkeeping and volume (`playback.rs`) and the track
    cache's file names (`cache.rs`).
  - `ui/layout.rs` — the text and geometry of list rows and the player bar.
  - `utils/` — string helpers and formatting.
- `app/` — the program around it: the event loop, HTTP requests, file I/O,
  the libmpv bindings and the drawing.
- `tests/` — tests of the library on concrete values.

Each public function of the library states its result in its `ensures`,
except where the disk, the clock or chance decides: `TrackCache::has`
states nothing, `TrackCache::get` only that a path it returns is the
track's, `TokenData::is_expired` that it is the expiry test at some time,
and a shuffle that its order is the Fisher-Yates order for some draws. The
public `law_*` proof functions state properties that span several
calls, such as that the queue's shuffle order plays every track once, that
stepping back undoes a step forward, and that a stale search answer is
dropped.
