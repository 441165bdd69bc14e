# craters

A terminal dashboard for browsing crates.io: six panels (new crates, most
downloaded, just updated, recent downloads, popular keywords, popular
categories), keyboard navigation and a crate info popup.

The library in `src/` holds the dashboard's state and decisions, each with a
contract proved by Verus:

- `section`: the six sections, their navigation order and wrap-around.
- `selection`: the selection state of a list and one per section.
- `action`: actions, terminal events, keys, and per-mode key maps.
- `app`: the application state machine (events to actions, actions to state
  changes and terminal effects, main-loop control, the info popup's fetches).
- `dashboard` and `info_popup`: the text and styles of every panel.
- `layout`: rectangles and the screen split, computed by ratatui's layout solver.
- `registry`: crates.io addresses, listing orders, search queries and the
  listing records.
- `assoc`: association lists, the model of the key maps and the crate cache.

The program in `app/` reads the terminal, talks to crates.io and draws with
ratatui, handing plain values to the library and performing what it returns.
