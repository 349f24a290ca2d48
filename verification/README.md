# superseedr screens

The management screens of a terminal BitTorrent client: torrents, peers, journal,
settings and help. The library holds what the screens decide and show; every
function of it carries a contract that Verus proves.

- `src/` is the library.
  - `app.rs`, `config.rs`, `event_journal.rs`, `peer_manager.rs`: the state that
    the screens read and change.
  - `keys.rs`, `geometry.rs`: terminal input and areas.
  - `text.rs`, `paths.rs`, `lists.rs`, `order.rs`, `search.rs`, `moments.rs`,
    `quantities.rs`: what the screens share.
  - `tui/layout/`: columns and panes for the room there is.
  - `tui/screens/`: one module for each screen. A screen has a model, an action
    for each key, a function from model and action to the next model, and the
    texts that it shows. What holds of every action stands as public proof
    functions, for the larger screens in a file `laws.rs`.
- `app/` puts the screens on a terminal: it reads events, draws frames with
  `ratatui`, rounds quantities for display, and sends requests to the session.
- `tests/` runs the library.
