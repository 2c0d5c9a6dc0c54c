# namsex_core

A small React-like component framework whose logic is proved with Verus.

Components (`MyRoot`, `Me`, `Me1`) render either a child component's
blueprint or a platform node (`Button`, `Text`). `mount` builds the tree of a
root component; `handle_event` routes an event raised on a platform node to
the component that owns the node's handler, updates that component and renders
it again in place, keeping every subtree whose component kind and props did
not change. `sync_action` decides what a platform does with the element of
each platform node.

Layout:

- `src/` — the library, verified except for two trusted wrappers around
  calls it cannot check (`fresh_id` in `ids.rs`, which draws a version-4 UUID,
  and `i32_to_string` in `label.rs`, which formats an `i32`): events (`event.rs`), components
  (`component.rs`, `my_root.rs`, `me.rs`, `me1.rs`), platform nodes
  (`button.rs`, `text.rs`, `platform_node.rs`), the tree and its searches
  (`tree_node.rs`), reconciliation and event routing (`reconcile.rs`), sync
  decisions (`sync.rs`), and properties of the whole (`laws.rs`).
- `app/` — the platforms: the event loop with its channel, a terminal
  program, and a browser platform that shows buttons as DOM elements.
- `tests/` — tests of the library on concrete values.
